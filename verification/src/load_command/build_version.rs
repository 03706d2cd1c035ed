//! The build-version load command.

use crate::bytes::le32;
use crate::endian::{u32_at, Endian};
use vstd::prelude::*;

verus! {

/// The platform a file was built for.
#[derive(Debug, Clone, Copy, PartialEq, Eq, Structural)]
pub enum Platform {
    MacOS,
    IOS,
    TvOS,
    WatchOS,
    BridgeOS,
    MacCatalyst,
    IOSSimulator,
    TvOSSimulator,
    WatchOSSimulator,
    Driverkit,
}

impl Platform {
    /// The value of this platform.
    pub open spec fn spec_to_u32(self) -> u32 {
        match self {
            Platform::MacOS => 1,
            Platform::IOS => 2,
            Platform::TvOS => 3,
            Platform::WatchOS => 4,
            Platform::BridgeOS => 5,
            Platform::MacCatalyst => 6,
            Platform::IOSSimulator => 7,
            Platform::TvOSSimulator => 8,
            Platform::WatchOSSimulator => 9,
            Platform::Driverkit => 10,
        }
    }

    /// The platform with the given value, if there is one.
    pub open spec fn spec_from_u32(n: u32) -> Option<Platform> {
        if n == 1 {
            Some(Platform::MacOS)
        } else if n == 2 {
            Some(Platform::IOS)
        } else if n == 3 {
            Some(Platform::TvOS)
        } else if n == 4 {
            Some(Platform::WatchOS)
        } else if n == 5 {
            Some(Platform::BridgeOS)
        } else if n == 6 {
            Some(Platform::MacCatalyst)
        } else if n == 7 {
            Some(Platform::IOSSimulator)
        } else if n == 8 {
            Some(Platform::TvOSSimulator)
        } else if n == 9 {
            Some(Platform::WatchOSSimulator)
        } else if n == 10 {
            Some(Platform::Driverkit)
        } else {
            None
        }
    }

    /// The platform with the given value.
    pub fn from_u32(n: u32) -> (r: Platform)
        requires
            Platform::spec_from_u32(n) is Some,
        ensures
            Some(r) == Platform::spec_from_u32(n),
    {
        if n == 1 {
            Platform::MacOS
        } else if n == 2 {
            Platform::IOS
        } else if n == 3 {
            Platform::TvOS
        } else if n == 4 {
            Platform::WatchOS
        } else if n == 5 {
            Platform::BridgeOS
        } else if n == 6 {
            Platform::MacCatalyst
        } else if n == 7 {
            Platform::IOSSimulator
        } else if n == 8 {
            Platform::TvOSSimulator
        } else if n == 9 {
            Platform::WatchOSSimulator
        } else if n == 10 {
            Platform::Driverkit
        } else {
            vstd::pervasive::unreached()
        }
    }

    /// The value of this platform.
    pub fn to_u32(self) -> (r: u32)
        ensures
            r == self.spec_to_u32(),
    {
        match self {
            Platform::MacOS => 1,
            Platform::IOS => 2,
            Platform::TvOS => 3,
            Platform::WatchOS => 4,
            Platform::BridgeOS => 5,
            Platform::MacCatalyst => 6,
            Platform::IOSSimulator => 7,
            Platform::TvOSSimulator => 8,
            Platform::WatchOSSimulator => 9,
            Platform::Driverkit => 10,
        }
    }
}

/// A version number `X.Y.Z`, packed into one word as `xxxx.yy.zz` nibbles.
#[derive(Debug, Clone, Copy, PartialEq, Eq, Structural)]
pub struct Version {
    pub major: u16,
    pub minor: u8,
    pub release: u8,
}

impl Version {
    /// The packed word of this version.
    pub open spec fn spec_to_u32(self) -> u32 {
        (self.major as int * 0x10000 + self.minor as int * 0x100 + self.release as int) as u32
    }

    /// The version packed in the given word.
    pub open spec fn spec_from_u32(n: u32) -> Version {
        Version {
            major: (n as int / 0x10000) as u16,
            minor: (n as int / 0x100 % 0x100) as u8,
            release: (n as int % 0x100) as u8,
        }
    }

    /// The version packed in the given word.
    pub fn from_u32(n: u32) -> (r: Version)
        ensures
            r == Version::spec_from_u32(n),
            r.spec_to_u32() == n,
    {
        let r = Version {
            major: (n / 0x10000) as u16,
            minor: (n / 0x100 % 0x100) as u8,
            release: (n % 0x100) as u8,
        };
        assert((n / 0x10000) * 0x10000 + (n / 0x100 % 0x100) * 0x100 + n % 0x100 == n)
            by (bit_vector);
        r
    }

    /// The packed word of this version.
    pub fn to_u32(&self) -> (r: u32)
        ensures
            r == self.spec_to_u32(),
    {
        self.major as u32 * 0x10000 + self.minor as u32 * 0x100 + self.release as u32
    }
}

/// Packing and unpacking a version invert each other.
pub proof fn lemma_version_roundtrip(v: Version)
    ensures
        Version::spec_from_u32(v.spec_to_u32()) == v,
{
    let major = v.major;
    let minor = v.minor;
    let release = v.release;
    let n = v.spec_to_u32();
    assert(n == major as u32 * 0x10000 + minor as u32 * 0x100 + release as u32 ==> (n / 0x10000)
        == major as u32 && (n / 0x100 % 0x100) == minor as u32 && (n % 0x100) == release as u32)
        by (bit_vector);
}

/// The 24-byte load command naming the platform and OS versions a file was
/// built against.
#[derive(Debug, Clone, PartialEq, Eq, Structural)]
pub struct BuildVersionCommand {
    /// Always `BuildVersionCommand::TYPE`.
    pub cmd: u32,
    /// `BuildVersionCommand::SIZE` plus the tool records that follow.
    pub cmdsize: u32,
    pub platform: Platform,
    /// The minimum OS version the file runs on.
    pub minos: Version,
    /// The SDK version the file was built against.
    pub sdk: Version,
    /// The number of tool records that follow.
    pub ntools: u32,
}

impl BuildVersionCommand {
    /// The load command tag of a build-version command.
    pub const TYPE: u32 = 0x32;

    /// The serialized size of the command itself, without its tool records.
    pub const SIZE: u32 = 0x18;

    /// The tag and size fields hold their fixed values.
    pub open spec fn wf(self) -> bool {
        &&& self.cmd == BuildVersionCommand::TYPE
        &&& self.cmdsize == BuildVersionCommand::SIZE + BuildToolVersion::SIZE * self.ntools
    }

    /// The 24 serialized bytes of the command, in little-endian order.
    pub open spec fn spec_serialize(self) -> Seq<u8> {
        le32(self.cmd) + le32(self.cmdsize) + le32(self.platform.spec_to_u32()) + le32(
            self.minos.spec_to_u32(),
        ) + le32(self.sdk.spec_to_u32()) + le32(self.ntools)
    }

    /// The command read from 24 bytes at `pos` in byte order `e`.
    pub open spec fn spec_parse(s: Seq<u8>, pos: int, e: Endian) -> BuildVersionCommand {
        BuildVersionCommand {
            cmd: u32_at(s, pos, e),
            cmdsize: u32_at(s, pos + 4, e),
            platform: Platform::spec_from_u32(u32_at(s, pos + 8, e))->Some_0,
            minos: Version::spec_from_u32(u32_at(s, pos + 12, e)),
            sdk: Version::spec_from_u32(u32_at(s, pos + 16, e)),
            ntools: u32_at(s, pos + 20, e),
        }
    }

    /// The 24 bytes at `pos` parse as a build-version command.
    pub open spec fn parseable(s: Seq<u8>, pos: int, e: Endian) -> bool {
        &&& 0 <= pos
        &&& pos + 24 <= s.len()
        &&& u32_at(s, pos, e) == BuildVersionCommand::TYPE
        &&& Platform::spec_from_u32(u32_at(s, pos + 8, e)) is Some
        &&& u32_at(s, pos + 4, e) == BuildVersionCommand::SIZE + BuildToolVersion::SIZE * u32_at(
            s,
            pos + 20,
            e,
        )
    }

    /// Serializes the command, appending its 24 bytes to `buf`.
    pub fn write_into(&self, buf: &mut Vec<u8>)
        ensures
            final(buf)@ == old(buf)@ + self.spec_serialize(),
            final(buf)@.len() == old(buf)@.len() + 24,
    {
        crate::bytes::push_u32_le(buf, self.cmd);
        crate::bytes::push_u32_le(buf, self.cmdsize);
        crate::bytes::push_u32_le(buf, self.platform.to_u32());
        crate::bytes::push_u32_le(buf, self.minos.to_u32());
        crate::bytes::push_u32_le(buf, self.sdk.to_u32());
        crate::bytes::push_u32_le(buf, self.ntools);
        assert(final(buf)@ =~= old(buf)@ + self.spec_serialize());
    }

    /// Reads a build-version command from 24 bytes at `pos` in byte order
    /// `e`.
    pub fn read_from_in(s: &Vec<u8>, pos: usize, e: Endian) -> (r: BuildVersionCommand)
        requires
            BuildVersionCommand::parseable(s@, pos as int, e),
        ensures
            r == BuildVersionCommand::spec_parse(s@, pos as int, e),
    {
        let slen: usize = s.len();
        BuildVersionCommand {
            cmd: crate::endian::read_u32_in(s, pos, e),
            cmdsize: crate::endian::read_u32_in(s, pos + 4, e),
            platform: Platform::from_u32(crate::endian::read_u32_in(s, pos + 8, e)),
            minos: Version::from_u32(crate::endian::read_u32_in(s, pos + 12, e)),
            sdk: Version::from_u32(crate::endian::read_u32_in(s, pos + 16, e)),
            ntools: crate::endian::read_u32_in(s, pos + 20, e),
        }
    }
}

/// Reading back a serialized build-version command gives the command.
pub proof fn lemma_build_version_command_roundtrip(x: BuildVersionCommand)
    requires
        x.wf(),
    ensures
        BuildVersionCommand::parseable(x.spec_serialize(), 0, Endian::Little),
        BuildVersionCommand::spec_parse(x.spec_serialize(), 0, Endian::Little) == x,
{
    let s = x.spec_serialize();
    assert(s.subrange(0, 4) =~= le32(x.cmd));
    crate::endian::lemma_u32_field(s, 0, x.cmd);
    assert(s.subrange(4, 8) =~= le32(x.cmdsize));
    crate::endian::lemma_u32_field(s, 4, x.cmdsize);
    assert(s.subrange(8, 12) =~= le32(x.platform.spec_to_u32()));
    crate::endian::lemma_u32_field(s, 8, x.platform.spec_to_u32());
    assert(s.subrange(12, 16) =~= le32(x.minos.spec_to_u32()));
    crate::endian::lemma_u32_field(s, 12, x.minos.spec_to_u32());
    lemma_version_roundtrip(x.minos);
    assert(s.subrange(16, 20) =~= le32(x.sdk.spec_to_u32()));
    crate::endian::lemma_u32_field(s, 16, x.sdk.spec_to_u32());
    lemma_version_roundtrip(x.sdk);
    assert(s.subrange(20, 24) =~= le32(x.ntools));
    crate::endian::lemma_u32_field(s, 20, x.ntools);
}

/// The tool that produced a file.
#[derive(Debug, Clone, Copy, PartialEq, Eq, Structural)]
pub enum Tool {
    Clang,
    Swift,
    LD,
}

impl Tool {
    /// The value of this tool.
    pub open spec fn spec_to_u32(self) -> u32 {
        match self {
            Tool::Clang => 1,
            Tool::Swift => 2,
            Tool::LD => 3,
        }
    }

    /// The tool with the given value, if there is one.
    pub open spec fn spec_from_u32(n: u32) -> Option<Tool> {
        if n == 1 {
            Some(Tool::Clang)
        } else if n == 2 {
            Some(Tool::Swift)
        } else if n == 3 {
            Some(Tool::LD)
        } else {
            None
        }
    }

    /// The tool with the given value.
    pub fn from_u32(n: u32) -> (r: Tool)
        requires
            Tool::spec_from_u32(n) is Some,
        ensures
            Some(r) == Tool::spec_from_u32(n),
    {
        if n == 1 {
            Tool::Clang
        } else if n == 2 {
            Tool::Swift
        } else if n == 3 {
            Tool::LD
        } else {
            vstd::pervasive::unreached()
        }
    }

    /// The value of this tool.
    pub fn to_u32(self) -> (r: u32)
        ensures
            r == self.spec_to_u32(),
    {
        match self {
            Tool::Clang => 1,
            Tool::Swift => 2,
            Tool::LD => 3,
        }
    }
}

/// One 8-byte tool record following a build-version command.
#[derive(Debug, Clone, PartialEq, Eq, Structural)]
pub struct BuildToolVersion {
    pub tool: Tool,
    pub version: u32,
}

impl BuildToolVersion {
    /// The serialized size of a tool record.
    pub const SIZE: u32 = 0x8;

    /// The 8 serialized bytes of the record, in little-endian order.
    pub open spec fn spec_serialize(self) -> Seq<u8> {
        le32(self.tool.spec_to_u32()) + le32(self.version)
    }

    /// The record read from 8 bytes at `pos` in byte order `e`.
    pub open spec fn spec_parse(s: Seq<u8>, pos: int, e: Endian) -> BuildToolVersion {
        BuildToolVersion {
            tool: Tool::spec_from_u32(u32_at(s, pos, e))->Some_0,
            version: u32_at(s, pos + 4, e),
        }
    }

    /// The 8 bytes at `pos` parse as a tool record.
    pub open spec fn parseable(s: Seq<u8>, pos: int, e: Endian) -> bool {
        &&& 0 <= pos
        &&& pos + 8 <= s.len()
        &&& Tool::spec_from_u32(u32_at(s, pos, e)) is Some
    }

    /// Serializes the record, appending its 8 bytes to `buf`.
    pub fn write_into(&self, buf: &mut Vec<u8>)
        ensures
            final(buf)@ == old(buf)@ + self.spec_serialize(),
            final(buf)@.len() == old(buf)@.len() + 8,
    {
        crate::bytes::push_u32_le(buf, self.tool.to_u32());
        crate::bytes::push_u32_le(buf, self.version);
        assert(final(buf)@ =~= old(buf)@ + self.spec_serialize());
    }

    /// Reads a tool record from 8 bytes at `pos` in byte order `e`.
    pub fn read_from_in(s: &Vec<u8>, pos: usize, e: Endian) -> (r: BuildToolVersion)
        requires
            BuildToolVersion::parseable(s@, pos as int, e),
        ensures
            r == BuildToolVersion::spec_parse(s@, pos as int, e),
    {
        let slen: usize = s.len();
        BuildToolVersion {
            tool: Tool::from_u32(crate::endian::read_u32_in(s, pos, e)),
            version: crate::endian::read_u32_in(s, pos + 4, e),
        }
    }
}

/// Reading back a serialized tool record gives the record.
pub proof fn lemma_build_tool_version_roundtrip(x: BuildToolVersion)
    ensures
        BuildToolVersion::parseable(x.spec_serialize(), 0, Endian::Little),
        BuildToolVersion::spec_parse(x.spec_serialize(), 0, Endian::Little) == x,
{
    let s = x.spec_serialize();
    assert(s.subrange(0, 4) =~= le32(x.tool.spec_to_u32()));
    crate::endian::lemma_u32_field(s, 0, x.tool.spec_to_u32());
    assert(s.subrange(4, 8) =~= le32(x.version));
    crate::endian::lemma_u32_field(s, 4, x.version);
}

} // verus!
