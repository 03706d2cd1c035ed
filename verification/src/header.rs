//! The Mach-O 64-bit file header.

use crate::bytes::le32;
use crate::endian::{i32_at, le32_i, u32_at, Endian};
use vstd::prelude::*;

verus! {

/// The magic number identifying a Mach-O file.
#[derive(Debug, Clone, Copy, PartialEq, Eq, Structural)]
pub enum Magic {
    /// A 64-bit file in the reader's own byte order.
    Magic64,
    /// A 64-bit file in the reverse byte order.
    Cigam64,
    /// A 32-bit file in the reader's own byte order.
    Magic,
    /// A 32-bit file in the reverse byte order.
    Cigam,
    /// A multi-architecture file in the reader's own byte order.
    FatMagic,
    /// A multi-architecture file in the reverse byte order.
    FatCigam,
}

impl Magic {
    /// The 32-bit value of this magic number.
    pub open spec fn spec_to_u32(self) -> u32 {
        match self {
            Magic::Magic64 => 0xfeedfacf,
            Magic::Cigam64 => 0xcffaedfe,
            Magic::Magic => 0xfeedface,
            Magic::Cigam => 0xcefaedfe,
            Magic::FatMagic => 0xcafebabe,
            Magic::FatCigam => 0xbebafeca,
        }
    }

    /// The magic number with the given value, if there is one.
    pub open spec fn spec_from_u32(n: u32) -> Option<Magic> {
        if n == 0xfeedfacf {
            Some(Magic::Magic64)
        } else if n == 0xcffaedfe {
            Some(Magic::Cigam64)
        } else if n == 0xfeedface {
            Some(Magic::Magic)
        } else if n == 0xcefaedfe {
            Some(Magic::Cigam)
        } else if n == 0xcafebabe {
            Some(Magic::FatMagic)
        } else if n == 0xbebafeca {
            Some(Magic::FatCigam)
        } else {
            None
        }
    }

    /// The magic number with the given value, if there is one.
    pub fn from_u32_checked(n: u32) -> (r: Option<Magic>)
        ensures
            r == Magic::spec_from_u32(n),
    {
        if n == 0xfeedfacf {
            Some(Magic::Magic64)
        } else if n == 0xcffaedfe {
            Some(Magic::Cigam64)
        } else if n == 0xfeedface {
            Some(Magic::Magic)
        } else if n == 0xcefaedfe {
            Some(Magic::Cigam)
        } else if n == 0xcafebabe {
            Some(Magic::FatMagic)
        } else if n == 0xbebafeca {
            Some(Magic::FatCigam)
        } else {
            None
        }
    }

    /// The magic number with the given value.
    pub fn from_u32(n: u32) -> (r: Magic)
        requires
            Magic::spec_from_u32(n) is Some,
        ensures
            Some(r) == Magic::spec_from_u32(n),
    {
        match Magic::from_u32_checked(n) {
            Some(m) => m,
            None => vstd::pervasive::unreached(),
        }
    }

    /// The 32-bit value of this magic number.
    pub fn to_u32(&self) -> (r: u32)
        ensures
            r == self.spec_to_u32(),
    {
        match self {
            Magic::Magic64 => 0xfeedfacf,
            Magic::Cigam64 => 0xcffaedfe,
            Magic::Magic => 0xfeedface,
            Magic::Cigam => 0xcefaedfe,
            Magic::FatMagic => 0xcafebabe,
            Magic::FatCigam => 0xbebafeca,
        }
    }
}

/// The x86 CPU subtype.
#[derive(Debug, Clone, Copy, PartialEq, Eq, Structural)]
pub enum CpuSubTypeX86 {
    All,
}

/// The x86-64 CPU subtype.
#[derive(Debug, Clone, Copy, PartialEq, Eq, Structural)]
pub enum CpuSubTypeX86_64 {
    All,
}

/// The CPU family a file is built for, with its subtype.
#[derive(Debug, Clone, Copy, PartialEq, Eq, Structural)]
pub enum CpuType {
    X86(CpuSubTypeX86),
    X86_64(CpuSubTypeX86_64),
}

impl CpuType {
    /// The `cputype` and `cpusubtype` words. x86 is 7; the 64-bit variant
    /// adds the 64-bit ABI bit `0x01000000`; both subtypes are `All` (3).
    pub open spec fn spec_to_i32_i32(self) -> (i32, i32) {
        match self {
            CpuType::X86(_) => (0x7, 0x3),
            CpuType::X86_64(_) => (0x01000007, 0x3),
        }
    }

    /// The CPU type for the given `cputype` and `cpusubtype` words.
    pub open spec fn spec_from_i32_i32(cpu_type_n: i32, cpu_subtype_n: i32) -> Option<CpuType> {
        if cpu_type_n == 0x7 && cpu_subtype_n == 0x3 {
            Some(CpuType::X86(CpuSubTypeX86::All))
        } else if cpu_type_n == 0x01000007 && cpu_subtype_n == 0x3 {
            Some(CpuType::X86_64(CpuSubTypeX86_64::All))
        } else {
            None
        }
    }

    /// The CPU type for the given `cputype` and `cpusubtype` words.
    pub fn from_i32_i32(cpu_type_n: i32, cpu_subtype_n: i32) -> (r: CpuType)
        requires
            CpuType::spec_from_i32_i32(cpu_type_n, cpu_subtype_n) is Some,
        ensures
            Some(r) == CpuType::spec_from_i32_i32(cpu_type_n, cpu_subtype_n),
    {
        if cpu_type_n == 0x7 && cpu_subtype_n == 0x3 {
            CpuType::X86(CpuSubTypeX86::All)
        } else if cpu_type_n == 0x01000007 && cpu_subtype_n == 0x3 {
            CpuType::X86_64(CpuSubTypeX86_64::All)
        } else {
            vstd::pervasive::unreached()
        }
    }

    /// The `cputype` and `cpusubtype` words of this CPU type.
    pub fn to_i32_i32(&self) -> (r: (i32, i32))
        ensures
            r == self.spec_to_i32_i32(),
    {
        match self {
            CpuType::X86(_) => (0x7, 0x3),
            CpuType::X86_64(_) => (0x01000007, 0x3),
        }
    }
}

/// What kind of Mach-O file this is.
#[derive(Debug, Clone, Copy, PartialEq, Eq, Structural)]
pub enum FileType {
    Object,
    Execute,
    FVMLib,
    Core,
    Preload,
    Dylib,
    Dylinker,
    Bundle,
    Dsym,
}

impl FileType {
    /// The `filetype` word of this file type.
    pub open spec fn spec_to_u32(self) -> u32 {
        match self {
            FileType::Object => 0x1,
            FileType::Execute => 0x2,
            FileType::FVMLib => 0x3,
            FileType::Core => 0x4,
            FileType::Preload => 0x5,
            FileType::Dylib => 0x6,
            FileType::Dylinker => 0x7,
            FileType::Bundle => 0x8,
            FileType::Dsym => 0xA,
        }
    }

    /// The file type with the given value, if there is one.
    pub open spec fn spec_from_u32(n: u32) -> Option<FileType> {
        if n == 0x1 {
            Some(FileType::Object)
        } else if n == 0x2 {
            Some(FileType::Execute)
        } else if n == 0x3 {
            Some(FileType::FVMLib)
        } else if n == 0x4 {
            Some(FileType::Core)
        } else if n == 0x5 {
            Some(FileType::Preload)
        } else if n == 0x6 {
            Some(FileType::Dylib)
        } else if n == 0x7 {
            Some(FileType::Dylinker)
        } else if n == 0x8 {
            Some(FileType::Bundle)
        } else if n == 0xA {
            Some(FileType::Dsym)
        } else {
            None
        }
    }

    /// The file type with the given value.
    pub fn from_u32(n: u32) -> (r: FileType)
        requires
            FileType::spec_from_u32(n) is Some,
        ensures
            Some(r) == FileType::spec_from_u32(n),
    {
        if n == 0x1 {
            FileType::Object
        } else if n == 0x2 {
            FileType::Execute
        } else if n == 0x3 {
            FileType::FVMLib
        } else if n == 0x4 {
            FileType::Core
        } else if n == 0x5 {
            FileType::Preload
        } else if n == 0x6 {
            FileType::Dylib
        } else if n == 0x7 {
            FileType::Dylinker
        } else if n == 0x8 {
            FileType::Bundle
        } else if n == 0xA {
            FileType::Dsym
        } else {
            vstd::pervasive::unreached()
        }
    }

    /// The `filetype` word of this file type.
    pub fn to_u32(self) -> (r: u32)
        ensures
            r == self.spec_to_u32(),
    {
        match self {
            FileType::Object => 0x1,
            FileType::Execute => 0x2,
            FileType::FVMLib => 0x3,
            FileType::Core => 0x4,
            FileType::Preload => 0x5,
            FileType::Dylib => 0x6,
            FileType::Dylinker => 0x7,
            FileType::Bundle => 0x8,
            FileType::Dsym => 0xA,
        }
    }
}

/// One header flag bit.
#[derive(Debug, Clone, Copy, PartialEq, Eq, Structural)]
pub enum Flag {
    NoUndefs,
    IncrLink,
    DyldLink,
    BindAtLoad,
    PreBound,
    SplitSegs,
    TwoLevel,
    ForceFlat,
    NoMultiDefs,
    NoFixPreBinding,
    PreBindable,
    AllModsBound,
    SubsectionsViaSymbols,
    Canonical,
    Pie,
    HasTlvDescriptors,
}

/// The bits of all known header flags.
pub const FLAG_BITS_MASK: u32 = 0xA07FBF;

impl Flag {
    /// The bit of this flag in the header's `flags` word.
    pub open spec fn spec_to_u32(self) -> u32 {
        match self {
            Flag::NoUndefs => 0x000001,
            Flag::IncrLink => 0x000002,
            Flag::DyldLink => 0x000004,
            Flag::BindAtLoad => 0x000008,
            Flag::PreBound => 0x000010,
            Flag::SplitSegs => 0x000020,
            Flag::TwoLevel => 0x000080,
            Flag::ForceFlat => 0x000100,
            Flag::NoMultiDefs => 0x000200,
            Flag::NoFixPreBinding => 0x000400,
            Flag::PreBindable => 0x000800,
            Flag::AllModsBound => 0x001000,
            Flag::SubsectionsViaSymbols => 0x002000,
            Flag::Canonical => 0x004000,
            Flag::Pie => 0x200000,
            Flag::HasTlvDescriptors => 0x800000,
        }
    }

    /// The flag with the given bit, if there is one.
    pub open spec fn spec_from_u32(n: u32) -> Option<Flag> {
        if n == 0x000001 {
            Some(Flag::NoUndefs)
        } else if n == 0x000002 {
            Some(Flag::IncrLink)
        } else if n == 0x000004 {
            Some(Flag::DyldLink)
        } else if n == 0x000008 {
            Some(Flag::BindAtLoad)
        } else if n == 0x000010 {
            Some(Flag::PreBound)
        } else if n == 0x000020 {
            Some(Flag::SplitSegs)
        } else if n == 0x000080 {
            Some(Flag::TwoLevel)
        } else if n == 0x000100 {
            Some(Flag::ForceFlat)
        } else if n == 0x000200 {
            Some(Flag::NoMultiDefs)
        } else if n == 0x000400 {
            Some(Flag::NoFixPreBinding)
        } else if n == 0x000800 {
            Some(Flag::PreBindable)
        } else if n == 0x001000 {
            Some(Flag::AllModsBound)
        } else if n == 0x002000 {
            Some(Flag::SubsectionsViaSymbols)
        } else if n == 0x004000 {
            Some(Flag::Canonical)
        } else if n == 0x200000 {
            Some(Flag::Pie)
        } else if n == 0x800000 {
            Some(Flag::HasTlvDescriptors)
        } else {
            None
        }
    }

    /// The flag with the given bit.
    pub fn from_u32(n: u32) -> (r: Flag)
        requires
            Flag::spec_from_u32(n) is Some,
        ensures
            Some(r) == Flag::spec_from_u32(n),
    {
        if n == 0x000001 {
            Flag::NoUndefs
        } else if n == 0x000002 {
            Flag::IncrLink
        } else if n == 0x000004 {
            Flag::DyldLink
        } else if n == 0x000008 {
            Flag::BindAtLoad
        } else if n == 0x000010 {
            Flag::PreBound
        } else if n == 0x000020 {
            Flag::SplitSegs
        } else if n == 0x000080 {
            Flag::TwoLevel
        } else if n == 0x000100 {
            Flag::ForceFlat
        } else if n == 0x000200 {
            Flag::NoMultiDefs
        } else if n == 0x000400 {
            Flag::NoFixPreBinding
        } else if n == 0x000800 {
            Flag::PreBindable
        } else if n == 0x001000 {
            Flag::AllModsBound
        } else if n == 0x002000 {
            Flag::SubsectionsViaSymbols
        } else if n == 0x004000 {
            Flag::Canonical
        } else if n == 0x200000 {
            Flag::Pie
        } else if n == 0x800000 {
            Flag::HasTlvDescriptors
        } else {
            vstd::pervasive::unreached()
        }
    }

    /// The bit of this flag in the header's `flags` word.
    pub fn to_u32(self) -> (r: u32)
        ensures
            r == self.spec_to_u32(),
    {
        match self {
            Flag::NoUndefs => 0x000001,
            Flag::IncrLink => 0x000002,
            Flag::DyldLink => 0x000004,
            Flag::BindAtLoad => 0x000008,
            Flag::PreBound => 0x000010,
            Flag::SplitSegs => 0x000020,
            Flag::TwoLevel => 0x000080,
            Flag::ForceFlat => 0x000100,
            Flag::NoMultiDefs => 0x000200,
            Flag::NoFixPreBinding => 0x000400,
            Flag::PreBindable => 0x000800,
            Flag::AllModsBound => 0x001000,
            Flag::SubsectionsViaSymbols => 0x002000,
            Flag::Canonical => 0x004000,
            Flag::Pie => 0x200000,
            Flag::HasTlvDescriptors => 0x800000,
        }
    }
}

/// The set of header flags, kept as the `flags` word itself.
#[derive(Debug, Clone, Copy, PartialEq, Eq, Structural)]
pub struct Flags {
    pub value: u32,
}

impl Flags {
    /// The `flags` word.
    pub open spec fn spec_to_u32(self) -> u32 {
        self.value
    }

    /// Only known flag bits are set.
    pub open spec fn wf(self) -> bool {
        self.spec_to_u32() & FLAG_BITS_MASK == self.spec_to_u32()
    }

    /// No flags.
    pub fn new() -> (r: Flags)
        ensures
            r.spec_to_u32() == 0,
            r.wf(),
    {
        let r = Flags { value: 0 };
        assert(0u32 & FLAG_BITS_MASK == 0u32) by (bit_vector);
        r
    }

    /// Adds one flag's bit.
    pub fn push(&mut self, flag: Flag)
        ensures
            final(self).spec_to_u32() == old(self).spec_to_u32() | flag.spec_to_u32(),
            old(self).wf() ==> final(self).wf(),
    {
        let ghost oldv = self.value;
        let f = flag.to_u32();
        self.value = self.value | f;
        proof {
            let fv = flag.spec_to_u32();
            assert(fv == 0x000001 || fv == 0x000002 || fv == 0x000004 || fv == 0x000008 || fv
                == 0x000010 || fv == 0x000020 || fv == 0x000080 || fv == 0x000100 || fv == 0x000200
                || fv == 0x000400 || fv == 0x000800 || fv == 0x001000 || fv == 0x002000 || fv
                == 0x004000 || fv == 0x200000 || fv == 0x800000);
            assert(fv & FLAG_BITS_MASK == fv) by (bit_vector)
                requires
                    fv == 0x000001 || fv == 0x000002 || fv == 0x000004 || fv == 0x000008 || fv
                        == 0x000010 || fv == 0x000020 || fv == 0x000080 || fv == 0x000100 || fv
                        == 0x000200 || fv == 0x000400 || fv == 0x000800 || fv == 0x001000 || fv
                        == 0x002000 || fv == 0x004000 || fv == 0x200000 || fv == 0x800000,
            ;
            assert(oldv & FLAG_BITS_MASK == oldv && fv & FLAG_BITS_MASK == fv ==> (oldv | fv)
                & FLAG_BITS_MASK == (oldv | fv)) by (bit_vector);
        }
    }

    /// The set of flags whose bits are set in `flags_n`.
    pub fn from_u32(flags_n: u32) -> (r: Flags)
        requires
            flags_n & FLAG_BITS_MASK == flags_n,
        ensures
            r.spec_to_u32() == flags_n,
            r.wf(),
    {
        Flags { value: flags_n }
    }

    /// The `flags` word.
    pub fn to_u32(&self) -> (r: u32)
        ensures
            r == self.spec_to_u32(),
    {
        self.value
    }
}

/// The 32-byte header of a 64-bit Mach-O file.
#[derive(Debug, Clone, PartialEq, Eq, Structural)]
pub struct Header64 {
    pub magic: Magic,
    pub cpu_type: CpuType,
    pub file_type: FileType,
    /// The number of load commands that follow.
    pub n_cmds: u32,
    /// The total size in bytes of the load commands that follow.
    pub size_of_cmds: u32,
    pub flags: Flags,
    pub reserved: u32,
}

impl Header64 {
    /// The serialized size of the header in bytes.
    pub const SIZE: u32 = 0x20;

    /// The 32 serialized bytes of the header, in little-endian order.
    pub open spec fn spec_serialize(self) -> Seq<u8> {
        le32(self.magic.spec_to_u32()) + le32_i(self.cpu_type.spec_to_i32_i32().0) + le32_i(
            self.cpu_type.spec_to_i32_i32().1,
        ) + le32(self.file_type.spec_to_u32()) + le32(self.n_cmds) + le32(self.size_of_cmds) + le32(
            self.flags.spec_to_u32(),
        ) + le32(self.reserved)
    }

    /// The header and byte order read from 32 bytes at `pos`. The byte
    /// order is the reader's own when the magic value reads back directly,
    /// and the reverse when it reads back byte-swapped.
    pub open spec fn spec_parse(s: Seq<u8>, pos: int) -> (Header64, Endian) {
        let e = Header64::spec_endian(s, pos);
        (
            Header64 {
                magic: Magic::spec_from_u32(u32_at(s, pos, Endian::Little))->Some_0,
                cpu_type: CpuType::spec_from_i32_i32(
                    i32_at(s, pos + 4, e),
                    i32_at(s, pos + 8, e),
                )->Some_0,
                file_type: FileType::spec_from_u32(u32_at(s, pos + 12, e))->Some_0,
                n_cmds: u32_at(s, pos + 16, e),
                size_of_cmds: u32_at(s, pos + 20, e),
                flags: Flags { value: u32_at(s, pos + 24, e) },
                reserved: u32_at(s, pos + 28, e),
            },
            e,
        )
    }

    /// The byte order named by the magic value at `pos`.
    pub open spec fn spec_endian(s: Seq<u8>, pos: int) -> Endian {
        match Magic::spec_from_u32(u32_at(s, pos, Endian::Little)) {
            Some(Magic::Magic64) | Some(Magic::Magic) => Endian::Little,
            _ => Endian::Big,
        }
    }

    /// The 32 bytes at `pos` parse as a header: the magic is a known
    /// non-fat value and the typed fields hold known values.
    pub open spec fn parseable(s: Seq<u8>, pos: int) -> bool {
        let e = Header64::spec_endian(s, pos);
        &&& 0 <= pos
        &&& pos + 32 <= s.len()
        &&& match Magic::spec_from_u32(u32_at(s, pos, Endian::Little)) {
            Some(Magic::Magic64) | Some(Magic::Magic) | Some(Magic::Cigam64)
            | Some(Magic::Cigam) => true,
            _ => false,
        }
        &&& CpuType::spec_from_i32_i32(i32_at(s, pos + 4, e), i32_at(s, pos + 8, e)) is Some
        &&& FileType::spec_from_u32(u32_at(s, pos + 12, e)) is Some
        &&& u32_at(s, pos + 24, e) & FLAG_BITS_MASK == u32_at(s, pos + 24, e)
    }

    /// Serializes the header, appending its 32 bytes to `buf`.
    pub fn write_into(&self, buf: &mut Vec<u8>)
        ensures
            final(buf)@ == old(buf)@ + self.spec_serialize(),
            final(buf)@.len() == old(buf)@.len() + 32,
    {
        crate::bytes::push_u32_le(buf, self.magic.to_u32());
        let (cpu_type_n, cpu_subtype_n) = self.cpu_type.to_i32_i32();
        crate::endian::push_i32_le(buf, cpu_type_n);
        crate::endian::push_i32_le(buf, cpu_subtype_n);
        crate::bytes::push_u32_le(buf, self.file_type.to_u32());
        crate::bytes::push_u32_le(buf, self.n_cmds);
        crate::bytes::push_u32_le(buf, self.size_of_cmds);
        crate::bytes::push_u32_le(buf, self.flags.to_u32());
        crate::bytes::push_u32_le(buf, self.reserved);
        assert(final(buf)@ =~= old(buf)@ + self.spec_serialize());
    }

    /// Reads a header and the file's byte order from 32 bytes at `pos`.
    pub fn read_from(s: &Vec<u8>, pos: usize) -> (r: (Header64, Endian))
        requires
            Header64::parseable(s@, pos as int),
        ensures
            r == Header64::spec_parse(s@, pos as int),
    {
        let slen: usize = s.len();
        let magic_n = crate::endian::read_u32_in(s, pos, Endian::Little);
        let magic = Magic::from_u32(magic_n);
        let endian = match magic {
            Magic::Magic64 | Magic::Magic => Endian::Little,
            Magic::Cigam64 | Magic::Cigam => Endian::Big,
            _ => vstd::pervasive::unreached(),
        };
        let cpu_type_n = crate::endian::read_i32_in(s, pos + 4, endian);
        let cpu_subtype_n = crate::endian::read_i32_in(s, pos + 8, endian);
        let cpu_type = CpuType::from_i32_i32(cpu_type_n, cpu_subtype_n);
        let file_type_n = crate::endian::read_u32_in(s, pos + 12, endian);
        let file_type = FileType::from_u32(file_type_n);
        let n_cmds = crate::endian::read_u32_in(s, pos + 16, endian);
        let size_of_cmds = crate::endian::read_u32_in(s, pos + 20, endian);
        let flags_n = crate::endian::read_u32_in(s, pos + 24, endian);
        let flags = Flags::from_u32(flags_n);
        let reserved = crate::endian::read_u32_in(s, pos + 28, endian);
        (Header64 { magic, cpu_type, file_type, n_cmds, size_of_cmds, flags, reserved }, endian)
    }

    /// The header round-trips: written in the file's own byte order, its
    /// magic must name that byte order.
    pub open spec fn wf_roundtrip(self) -> bool {
        &&& (self.magic == Magic::Magic64 || self.magic == Magic::Magic)
        &&& self.flags.wf()
    }
}

/// Reading back a serialized header gives the header and the reader's own
/// byte order.
pub proof fn lemma_header64_roundtrip(h: Header64)
    requires
        h.wf_roundtrip(),
    ensures
        Header64::parseable(h.spec_serialize(), 0),
        Header64::spec_parse(h.spec_serialize(), 0) == (h, Endian::Little),
{
    let s = h.spec_serialize();
    let m = h.magic.spec_to_u32();
    let (ct, cst) = h.cpu_type.spec_to_i32_i32();
    assert(s.subrange(0, 4) =~= le32(m));
    crate::endian::lemma_u32_field(s, 0, m);
    assert(s.subrange(4, 8) =~= le32_i(ct));
    crate::endian::lemma_i32_field(s, 4, ct);
    assert(s.subrange(8, 12) =~= le32_i(cst));
    crate::endian::lemma_i32_field(s, 8, cst);
    assert(s.subrange(12, 16) =~= le32(h.file_type.spec_to_u32()));
    crate::endian::lemma_u32_field(s, 12, h.file_type.spec_to_u32());
    assert(s.subrange(16, 20) =~= le32(h.n_cmds));
    crate::endian::lemma_u32_field(s, 16, h.n_cmds);
    assert(s.subrange(20, 24) =~= le32(h.size_of_cmds));
    crate::endian::lemma_u32_field(s, 20, h.size_of_cmds);
    assert(s.subrange(24, 28) =~= le32(h.flags.spec_to_u32()));
    crate::endian::lemma_u32_field(s, 24, h.flags.spec_to_u32());
    assert(s.subrange(28, 32) =~= le32(h.reserved));
    crate::endian::lemma_u32_field(s, 28, h.reserved);
}

} // verus!
