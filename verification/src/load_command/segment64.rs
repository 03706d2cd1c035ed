//! The 64-bit segment load command and its section records.

use crate::bytes::{le32, le64};
use crate::endian::{
    chars_of_bytes, fixed_str_bytes, i32_at, le32_i, take_until_nul, u32_at, u64_at, Endian,
};
use vstd::prelude::*;

verus! {

/// A 64-bit segment load command. In an object file one unnamed segment
/// holds all sections.
#[derive(Debug, Clone, PartialEq, Eq)]
pub struct SegmentCommand64 {
    /// Always `SegmentCommand64::TYPE`.
    pub cmd: u32,
    /// The command's size including its `Section64` records.
    pub cmdsize: u32,
    /// The segment name, at most 16 ASCII bytes.
    pub segname: String,
    pub vmaddr: u64,
    pub vmsize: u64,
    pub fileoff: u64,
    pub filesize: u64,
    pub maxprot: i32,
    pub initprot: i32,
    /// The number of `Section64` records that follow.
    pub nsects: u32,
    pub flags: u32,
}

impl SegmentCommand64 {
    /// The load command tag of a 64-bit segment command.
    pub const TYPE: u32 = 0x19;

    /// The serialized size of the command itself, without its sections.
    pub const SIZE: u32 = 0x48;

    /// The name is ASCII without NUL and fits the 16-byte field, and the
    /// sizes are consistent.
    pub open spec fn wf(self) -> bool {
        &&& self.segname@.len() <= 16
        &&& forall|i: int|
            0 <= i < self.segname@.len() ==> 0 < (#[trigger] self.segname@[i] as int) && (
            self.segname@[i] as int) < 128
        &&& self.cmd == SegmentCommand64::TYPE
        &&& self.cmdsize == SegmentCommand64::SIZE + self.nsects * Section64::SIZE
    }

    /// The 72 serialized bytes of the command, in little-endian order.
    pub open spec fn spec_serialize(self) -> Seq<u8> {
        le32(self.cmd) + le32(self.cmdsize) + fixed_str_bytes(self.segname@, 16) + le64(self.vmaddr)
            + le64(self.vmsize) + le64(self.fileoff) + le64(self.filesize) + le32_i(self.maxprot)
            + le32_i(self.initprot) + le32(self.nsects) + le32(self.flags)
    }

    /// `x` is the command read from 72 bytes at `pos` in byte order `e`.
    /// The name is compared by its characters.
    pub open spec fn parses_to(s: Seq<u8>, pos: int, e: Endian, x: SegmentCommand64) -> bool {
        &&& x.cmd == u32_at(s, pos, e)
        &&& x.cmdsize == u32_at(s, pos + 4, e)
        &&& x.segname@ == chars_of_bytes(take_until_nul(s.subrange(pos + 8, pos + 24)))
        &&& x.vmaddr == u64_at(s, pos + 24, e)
        &&& x.vmsize == u64_at(s, pos + 32, e)
        &&& x.fileoff == u64_at(s, pos + 40, e)
        &&& x.filesize == u64_at(s, pos + 48, e)
        &&& x.maxprot == i32_at(s, pos + 56, e)
        &&& x.initprot == i32_at(s, pos + 60, e)
        &&& x.nsects == u32_at(s, pos + 64, e)
        &&& x.flags == u32_at(s, pos + 68, e)
    }

    /// The 72 bytes at `pos` parse as a segment command.
    pub open spec fn parseable(s: Seq<u8>, pos: int, e: Endian) -> bool {
        &&& 0 <= pos
        &&& pos + 72 <= s.len()
        &&& u32_at(s, pos, e) == SegmentCommand64::TYPE
        &&& u32_at(s, pos + 4, e) == SegmentCommand64::SIZE + u32_at(s, pos + 64, e)
            * Section64::SIZE
        &&& forall|i: int| pos + 8 <= i < pos + 24 ==> (#[trigger] s[i]) < 128
    }

    /// Serializes the command, appending its 72 bytes to `buf`.
    pub fn write_into(&self, buf: &mut Vec<u8>)
        requires
            self.segname@.len() <= 16,
            vstd::string::string_is_ascii(&self.segname),
        ensures
            final(buf)@ == old(buf)@ + self.spec_serialize(),
            final(buf)@.len() == old(buf)@.len() + 72,
    {
        crate::bytes::push_u32_le(buf, self.cmd);
        crate::bytes::push_u32_le(buf, self.cmdsize);
        crate::endian::push_fixed_size_string(buf, self.segname.as_str(), 16);
        crate::bytes::push_u64_le(buf, self.vmaddr);
        crate::bytes::push_u64_le(buf, self.vmsize);
        crate::bytes::push_u64_le(buf, self.fileoff);
        crate::bytes::push_u64_le(buf, self.filesize);
        crate::endian::push_i32_le(buf, self.maxprot);
        crate::endian::push_i32_le(buf, self.initprot);
        crate::bytes::push_u32_le(buf, self.nsects);
        crate::bytes::push_u32_le(buf, self.flags);
        assert(final(buf)@ =~= old(buf)@ + self.spec_serialize());
    }

    /// Reads a segment command from 72 bytes at `pos` in byte order `e`.
    pub fn read_from_in(s: &Vec<u8>, pos: usize, e: Endian) -> (r: SegmentCommand64)
        requires
            SegmentCommand64::parseable(s@, pos as int, e),
        ensures
            SegmentCommand64::parses_to(s@, pos as int, e, r),
    {
        let slen: usize = s.len();
        let cmd = crate::endian::read_u32_in(s, pos, e);
        let cmdsize = crate::endian::read_u32_in(s, pos + 4, e);
        let segname = crate::endian::read_fixed_size_string(s, pos + 8, 16);
        let vmaddr = crate::endian::read_u64_in(s, pos + 24, e);
        let vmsize = crate::endian::read_u64_in(s, pos + 32, e);
        let fileoff = crate::endian::read_u64_in(s, pos + 40, e);
        let filesize = crate::endian::read_u64_in(s, pos + 48, e);
        let maxprot = crate::endian::read_i32_in(s, pos + 56, e);
        let initprot = crate::endian::read_i32_in(s, pos + 60, e);
        let nsects = crate::endian::read_u32_in(s, pos + 64, e);
        let flags = crate::endian::read_u32_in(s, pos + 68, e);
        SegmentCommand64 {
            cmd,
            cmdsize,
            segname,
            vmaddr,
            vmsize,
            fileoff,
            filesize,
            maxprot,
            initprot,
            nsects,
            flags,
        }
    }
}

/// Reading back a serialized segment command gives the command.
#[verifier::rlimit(100)]
pub proof fn lemma_segment_command64_roundtrip(x: SegmentCommand64)
    requires
        x.wf(),
    ensures
        SegmentCommand64::parseable(x.spec_serialize(), 0, Endian::Little),
        SegmentCommand64::parses_to(x.spec_serialize(), 0, Endian::Little, x),
{
    let s = x.spec_serialize();
    assert(s.subrange(0, 4) =~= le32(x.cmd));
    crate::endian::lemma_u32_field(s, 0, x.cmd);
    assert(s.subrange(4, 8) =~= le32(x.cmdsize));
    crate::endian::lemma_u32_field(s, 4, x.cmdsize);
    assert(s.subrange(8, 24) =~= fixed_str_bytes(x.segname@, 16));
    crate::endian::lemma_str_field(s, 8, x.segname@, 16);
    assert(s.subrange(24, 32) =~= crate::bytes::le64(x.vmaddr));
    crate::endian::lemma_u64_field(s, 24, x.vmaddr);
    assert(s.subrange(32, 40) =~= crate::bytes::le64(x.vmsize));
    crate::endian::lemma_u64_field(s, 32, x.vmsize);
    assert(s.subrange(40, 48) =~= crate::bytes::le64(x.fileoff));
    crate::endian::lemma_u64_field(s, 40, x.fileoff);
    assert(s.subrange(48, 56) =~= crate::bytes::le64(x.filesize));
    crate::endian::lemma_u64_field(s, 48, x.filesize);
    assert(s.subrange(56, 60) =~= le32_i(x.maxprot));
    crate::endian::lemma_i32_field(s, 56, x.maxprot);
    assert(s.subrange(60, 64) =~= le32_i(x.initprot));
    crate::endian::lemma_i32_field(s, 60, x.initprot);
    assert(s.subrange(64, 68) =~= le32(x.nsects));
    crate::endian::lemma_u32_field(s, 64, x.nsects);
    assert(s.subrange(68, 72) =~= le32(x.flags));
    crate::endian::lemma_u32_field(s, 68, x.flags);
}

/// What a section holds.
#[derive(Debug, Clone, Copy, PartialEq, Eq, Structural)]
pub enum SectionType {
    Regular,
    Zerofill,
    CstringLiterals,
    FourByteLiterals,
    EightByteLiterals,
    LiteralPointers,
    Coalesced,
}

impl SectionType {
    /// The bits of the section type within the `flags` word.
    pub const BIT_MASK: u32 = 0x000000ff;

    /// The value of this section type.
    pub open spec fn spec_to_u32(self) -> u32 {
        match self {
            SectionType::Regular => 0x0,
            SectionType::Zerofill => 0x1,
            SectionType::CstringLiterals => 0x2,
            SectionType::FourByteLiterals => 0x3,
            SectionType::EightByteLiterals => 0x4,
            SectionType::LiteralPointers => 0x5,
            SectionType::Coalesced => 0xB,
        }
    }

    /// The section type with the given value, if there is one.
    pub open spec fn spec_from_u32(n: u32) -> Option<SectionType> {
        if n == 0x0 {
            Some(SectionType::Regular)
        } else if n == 0x1 {
            Some(SectionType::Zerofill)
        } else if n == 0x2 {
            Some(SectionType::CstringLiterals)
        } else if n == 0x3 {
            Some(SectionType::FourByteLiterals)
        } else if n == 0x4 {
            Some(SectionType::EightByteLiterals)
        } else if n == 0x5 {
            Some(SectionType::LiteralPointers)
        } else if n == 0xB {
            Some(SectionType::Coalesced)
        } else {
            None
        }
    }

    /// The section type with the given value.
    pub fn from_u32(n: u32) -> (r: SectionType)
        requires
            SectionType::spec_from_u32(n) is Some,
        ensures
            Some(r) == SectionType::spec_from_u32(n),
    {
        if n == 0x0 {
            SectionType::Regular
        } else if n == 0x1 {
            SectionType::Zerofill
        } else if n == 0x2 {
            SectionType::CstringLiterals
        } else if n == 0x3 {
            SectionType::FourByteLiterals
        } else if n == 0x4 {
            SectionType::EightByteLiterals
        } else if n == 0x5 {
            SectionType::LiteralPointers
        } else if n == 0xB {
            SectionType::Coalesced
        } else {
            vstd::pervasive::unreached()
        }
    }

    /// The value of this section type.
    pub fn to_u32(self) -> (r: u32)
        ensures
            r == self.spec_to_u32(),
            r <= 0xB,
    {
        match self {
            SectionType::Regular => 0x0,
            SectionType::Zerofill => 0x1,
            SectionType::CstringLiterals => 0x2,
            SectionType::FourByteLiterals => 0x3,
            SectionType::EightByteLiterals => 0x4,
            SectionType::LiteralPointers => 0x5,
            SectionType::Coalesced => 0xB,
        }
    }
}

/// One section attribute bit.
#[derive(Debug, Clone, Copy, PartialEq, Eq, Structural)]
pub enum SectionAttr {
    /// The section holds only executable machine instructions.
    PureInstructions,
    NoToc,
    StripStaticSyms,
    LiveSupport,
    Debug,
    /// The section holds some executable machine instructions.
    SomeInstructions,
    /// The section has external relocation entries.
    ExtReloc,
    /// The section has local relocation entries.
    LocReloc,
}

/// The bits of all known section attributes.
pub const SECTION_ATTR_BITS_MASK: u32 = 0xEA000700;

impl SectionAttr {
    /// The bit of this attribute within the `flags` word.
    pub open spec fn spec_to_u32(self) -> u32 {
        match self {
            SectionAttr::PureInstructions => 0x80000000,
            SectionAttr::NoToc => 0x40000000,
            SectionAttr::StripStaticSyms => 0x20000000,
            SectionAttr::LiveSupport => 0x08000000,
            SectionAttr::Debug => 0x02000000,
            SectionAttr::SomeInstructions => 0x00000400,
            SectionAttr::ExtReloc => 0x00000200,
            SectionAttr::LocReloc => 0x00000100,
        }
    }

    /// The attribute with the given bit, if there is one.
    pub open spec fn spec_from_u32(n: u32) -> Option<SectionAttr> {
        if n == 0x80000000 {
            Some(SectionAttr::PureInstructions)
        } else if n == 0x40000000 {
            Some(SectionAttr::NoToc)
        } else if n == 0x20000000 {
            Some(SectionAttr::StripStaticSyms)
        } else if n == 0x08000000 {
            Some(SectionAttr::LiveSupport)
        } else if n == 0x02000000 {
            Some(SectionAttr::Debug)
        } else if n == 0x00000400 {
            Some(SectionAttr::SomeInstructions)
        } else if n == 0x00000200 {
            Some(SectionAttr::ExtReloc)
        } else if n == 0x00000100 {
            Some(SectionAttr::LocReloc)
        } else {
            None
        }
    }

    /// The attribute with the given bit.
    pub fn from_u32(n: u32) -> (r: SectionAttr)
        requires
            SectionAttr::spec_from_u32(n) is Some,
        ensures
            Some(r) == SectionAttr::spec_from_u32(n),
    {
        if n == 0x80000000 {
            SectionAttr::PureInstructions
        } else if n == 0x40000000 {
            SectionAttr::NoToc
        } else if n == 0x20000000 {
            SectionAttr::StripStaticSyms
        } else if n == 0x08000000 {
            SectionAttr::LiveSupport
        } else if n == 0x02000000 {
            SectionAttr::Debug
        } else if n == 0x00000400 {
            SectionAttr::SomeInstructions
        } else if n == 0x00000200 {
            SectionAttr::ExtReloc
        } else if n == 0x00000100 {
            SectionAttr::LocReloc
        } else {
            vstd::pervasive::unreached()
        }
    }

    /// The bit of this attribute within the `flags` word.
    pub fn to_u32(self) -> (r: u32)
        ensures
            r == self.spec_to_u32(),
    {
        match self {
            SectionAttr::PureInstructions => 0x80000000,
            SectionAttr::NoToc => 0x40000000,
            SectionAttr::StripStaticSyms => 0x20000000,
            SectionAttr::LiveSupport => 0x08000000,
            SectionAttr::Debug => 0x02000000,
            SectionAttr::SomeInstructions => 0x00000400,
            SectionAttr::ExtReloc => 0x00000200,
            SectionAttr::LocReloc => 0x00000100,
        }
    }
}

/// The set of section attributes, kept as their bits in the `flags` word.
#[derive(Debug, Clone, Copy, PartialEq, Eq, Structural)]
pub struct SectionAttrs {
    pub value: u32,
}

impl SectionAttrs {
    /// The bits of the section attributes within the `flags` word.
    pub const BIT_MASK: u32 = 0xffffff00;

    /// The attribute bits.
    pub open spec fn spec_to_u32(self) -> u32 {
        self.value
    }

    /// Only known attribute bits are set.
    pub open spec fn wf(self) -> bool {
        self.spec_to_u32() & SECTION_ATTR_BITS_MASK == self.spec_to_u32()
    }

    /// No attributes.
    pub fn new() -> (r: SectionAttrs)
        ensures
            r.spec_to_u32() == 0,
            r.wf(),
    {
        let r = SectionAttrs { value: 0 };
        assert(0u32 & SECTION_ATTR_BITS_MASK == 0u32) by (bit_vector);
        r
    }

    /// Adds one attribute's bit.
    pub fn push(&mut self, attr: SectionAttr)
        ensures
            final(self).spec_to_u32() == old(self).spec_to_u32() | attr.spec_to_u32(),
            old(self).wf() ==> final(self).wf(),
    {
        let ghost oldv = self.value;
        let f = attr.to_u32();
        self.value = self.value | f;
        proof {
            let fv = attr.spec_to_u32();
            assert(fv == 0x80000000 || fv == 0x40000000 || fv == 0x20000000 || fv == 0x08000000
                || fv == 0x02000000 || fv == 0x00000400 || fv == 0x00000200 || fv == 0x00000100);
            assert(fv & SECTION_ATTR_BITS_MASK == fv) by (bit_vector)
                requires
                    fv == 0x80000000 || fv == 0x40000000 || fv == 0x20000000 || fv == 0x08000000
                        || fv == 0x02000000 || fv == 0x00000400 || fv == 0x00000200 || fv
                        == 0x00000100,
            ;
            assert(oldv & SECTION_ATTR_BITS_MASK == oldv && fv & SECTION_ATTR_BITS_MASK == fv ==> (
            oldv | fv) & SECTION_ATTR_BITS_MASK == (oldv | fv)) by (bit_vector);
        }
    }

    /// The attributes whose bits are set in `flags`.
    pub fn from_u32(flags: u32) -> (r: SectionAttrs)
        requires
            flags & SECTION_ATTR_BITS_MASK == flags,
        ensures
            r.spec_to_u32() == flags,
            r.wf(),
    {
        SectionAttrs { value: flags }
    }

    /// The attribute bits.
    pub fn to_u32(&self) -> (r: u32)
        ensures
            r == self.spec_to_u32(),
    {
        self.value
    }
}

/// An 80-byte section record inside a segment command.
#[derive(Debug)]
pub struct Section64 {
    /// The section name, at most 16 ASCII bytes.
    pub sectname: String,
    /// The name of the segment the section belongs to.
    pub segname: String,
    /// The memory address of the section.
    pub addr: u64,
    /// The size of the section in bytes.
    pub size: u64,
    /// The file offset of the section's data.
    pub offset: u32,
    /// The section alignment, as a power of two.
    pub align: u32,
    /// The file offset of the section's first relocation entry.
    pub reloff: u32,
    /// The number of relocation entries.
    pub nreloc: u32,
    /// The attribute bits (upper three bytes) and type (lowest byte).
    pub flags: (SectionAttrs, SectionType),
    pub reserved1: u32,
    pub reserved2: u32,
    pub reserved3: u32,
}

impl Clone for Section64 {
    /// An equal record, field for field; the names keep their characters.
    fn clone(&self) -> (r: Self)
        ensures
            r.sectname@ == self.sectname@,
            r.segname@ == self.segname@,
            r.addr == self.addr,
            r.size == self.size,
            r.offset == self.offset,
            r.align == self.align,
            r.reloff == self.reloff,
            r.nreloc == self.nreloc,
            r.flags == self.flags,
            r.reserved1 == self.reserved1,
            r.reserved2 == self.reserved2,
            r.reserved3 == self.reserved3,
    {
        Section64 {
            sectname: self.sectname.clone(),
            segname: self.segname.clone(),
            addr: self.addr,
            size: self.size,
            offset: self.offset,
            align: self.align,
            reloff: self.reloff,
            nreloc: self.nreloc,
            flags: self.flags,
            reserved1: self.reserved1,
            reserved2: self.reserved2,
            reserved3: self.reserved3,
        }
    }
}

impl PartialEq for Section64 {
    fn eq(&self, o: &Self) -> (r: bool) {
        self.sectname.eq(&o.sectname) && self.segname.eq(&o.segname) && self.addr == o.addr
            && self.size == o.size && self.offset == o.offset && self.align == o.align
            && self.reloff == o.reloff && self.nreloc == o.nreloc && self.flags.0 == o.flags.0
            && self.flags.1 == o.flags.1 && self.reserved1 == o.reserved1 && self.reserved2
            == o.reserved2 && self.reserved3 == o.reserved3
    }
}

impl vstd::std_specs::cmp::PartialEqSpecImpl for Section64 {
    open spec fn obeys_eq_spec() -> bool {
        true
    }

    open spec fn eq_spec(&self, o: &Self) -> bool {
        &&& self.sectname@ == o.sectname@
        &&& self.segname@ == o.segname@
        &&& self.addr == o.addr
        &&& self.size == o.size
        &&& self.offset == o.offset
        &&& self.align == o.align
        &&& self.reloff == o.reloff
        &&& self.nreloc == o.nreloc
        &&& self.flags == o.flags
        &&& self.reserved1 == o.reserved1
        &&& self.reserved2 == o.reserved2
        &&& self.reserved3 == o.reserved3
    }
}

impl Section64 {
    /// The serialized size of a section record.
    pub const SIZE: u32 = 0x50;

    /// The names are ASCII without NUL and fit their 16-byte fields, and
    /// the flag bits are known ones.
    pub open spec fn wf(self) -> bool {
        &&& self.sectname@.len() <= 16
        &&& forall|i: int|
            0 <= i < self.sectname@.len() ==> 0 < (#[trigger] self.sectname@[i] as int) && (
            self.sectname@[i] as int) < 128
        &&& self.segname@.len() <= 16
        &&& forall|i: int|
            0 <= i < self.segname@.len() ==> 0 < (#[trigger] self.segname@[i] as int) && (
            self.segname@[i] as int) < 128
        &&& self.flags.0.wf()
    }

    /// The combined `flags` word.
    pub open spec fn spec_flags_word(self) -> u32 {
        self.flags.0.spec_to_u32() | self.flags.1.spec_to_u32()
    }

    /// The 80 serialized bytes of the record, in little-endian order.
    pub open spec fn spec_serialize(self) -> Seq<u8> {
        fixed_str_bytes(self.sectname@, 16) + fixed_str_bytes(self.segname@, 16) + le64(self.addr)
            + le64(self.size) + le32(self.offset) + le32(self.align) + le32(self.reloff) + le32(
            self.nreloc,
        ) + le32(self.spec_flags_word()) + le32(self.reserved1) + le32(self.reserved2) + le32(
            self.reserved3,
        )
    }

    /// `x` is the record read from 80 bytes at `pos` in byte order `e`.
    /// The names are compared by their characters.
    pub open spec fn parses_to(s: Seq<u8>, pos: int, e: Endian, x: Section64) -> bool {
        &&& x.sectname@ == chars_of_bytes(take_until_nul(s.subrange(pos, pos + 16)))
        &&& x.segname@ == chars_of_bytes(take_until_nul(s.subrange(pos + 16, pos + 32)))
        &&& x.addr == u64_at(s, pos + 32, e)
        &&& x.size == u64_at(s, pos + 40, e)
        &&& x.offset == u32_at(s, pos + 48, e)
        &&& x.align == u32_at(s, pos + 52, e)
        &&& x.reloff == u32_at(s, pos + 56, e)
        &&& x.nreloc == u32_at(s, pos + 60, e)
        &&& x.flags.0 == (SectionAttrs { value: u32_at(s, pos + 64, e) & 0xffffff00u32 })
        &&& Some(x.flags.1) == SectionType::spec_from_u32(u32_at(s, pos + 64, e) & 0x000000ffu32)
        &&& x.reserved1 == u32_at(s, pos + 68, e)
        &&& x.reserved2 == u32_at(s, pos + 72, e)
        &&& x.reserved3 == u32_at(s, pos + 76, e)
    }

    /// The 80 bytes at `pos` parse as a section record.
    pub open spec fn parseable(s: Seq<u8>, pos: int, e: Endian) -> bool {
        &&& 0 <= pos
        &&& pos + 80 <= s.len()
        &&& forall|i: int| pos <= i < pos + 32 ==> (#[trigger] s[i]) < 128
        &&& SectionType::spec_from_u32(u32_at(s, pos + 64, e) & 0x000000ffu32) is Some
        &&& (u32_at(s, pos + 64, e) & 0xffffff00u32) & SECTION_ATTR_BITS_MASK == u32_at(
            s,
            pos + 64,
            e,
        ) & 0xffffff00u32
    }

    /// Serializes the record, appending its 80 bytes to `buf`.
    #[verifier::rlimit(100)]
    pub fn write_into(&self, buf: &mut Vec<u8>)
        requires
            self.sectname@.len() <= 16,
            vstd::string::string_is_ascii(&self.sectname),
            self.segname@.len() <= 16,
            vstd::string::string_is_ascii(&self.segname),
        ensures
            final(buf)@ == old(buf)@ + self.spec_serialize(),
            final(buf)@.len() == old(buf)@.len() + 80,
    {
        crate::endian::push_fixed_size_string(buf, self.sectname.as_str(), 16);
        crate::endian::push_fixed_size_string(buf, self.segname.as_str(), 16);
        crate::bytes::push_u64_le(buf, self.addr);
        crate::bytes::push_u64_le(buf, self.size);
        crate::bytes::push_u32_le(buf, self.offset);
        crate::bytes::push_u32_le(buf, self.align);
        crate::bytes::push_u32_le(buf, self.reloff);
        crate::bytes::push_u32_le(buf, self.nreloc);
        let flags_n = self.flags.0.to_u32() | self.flags.1.to_u32();
        crate::bytes::push_u32_le(buf, flags_n);
        crate::bytes::push_u32_le(buf, self.reserved1);
        crate::bytes::push_u32_le(buf, self.reserved2);
        crate::bytes::push_u32_le(buf, self.reserved3);
        assert(final(buf)@ =~= old(buf)@ + self.spec_serialize());
    }

    /// Reads a section record from 80 bytes at `pos` in byte order `e`.
    pub fn read_from_in(s: &Vec<u8>, pos: usize, e: Endian) -> (r: Section64)
        requires
            Section64::parseable(s@, pos as int, e),
        ensures
            Section64::parses_to(s@, pos as int, e, r),
    {
        let slen: usize = s.len();
        let sectname = crate::endian::read_fixed_size_string(s, pos, 16);
        let segname = crate::endian::read_fixed_size_string(s, pos + 16, 16);
        let addr = crate::endian::read_u64_in(s, pos + 32, e);
        let size = crate::endian::read_u64_in(s, pos + 40, e);
        let offset = crate::endian::read_u32_in(s, pos + 48, e);
        let align = crate::endian::read_u32_in(s, pos + 52, e);
        let reloff = crate::endian::read_u32_in(s, pos + 56, e);
        let nreloc = crate::endian::read_u32_in(s, pos + 60, e);
        let flags_n = crate::endian::read_u32_in(s, pos + 64, e);
        let sect_type = SectionType::from_u32(flags_n & 0x000000ff);
        let sect_attrs = SectionAttrs::from_u32(flags_n & 0xffffff00);
        let reserved1 = crate::endian::read_u32_in(s, pos + 68, e);
        let reserved2 = crate::endian::read_u32_in(s, pos + 72, e);
        let reserved3 = crate::endian::read_u32_in(s, pos + 76, e);
        Section64 {
            sectname,
            segname,
            addr,
            size,
            offset,
            align,
            reloff,
            nreloc,
            flags: (sect_attrs, sect_type),
            reserved1,
            reserved2,
            reserved3,
        }
    }
}

/// Splitting the combined flags word gives back the attribute bits and the
/// type value.
pub proof fn lemma_flags_word_split(attrs: u32, ty: u32)
    requires
        attrs & SECTION_ATTR_BITS_MASK == attrs,
        ty <= 0xB,
    ensures
        (attrs | ty) & 0xffffff00u32 == attrs,
        (attrs | ty) & 0x000000ffu32 == ty,
{
    assert((attrs & 0xEA000700u32 == attrs && ty <= 0xB) ==> ((attrs | ty) & 0xffffff00u32 == attrs
        && (attrs | ty) & 0x000000ffu32 == ty)) by (bit_vector);
}

/// Reading back a serialized section record gives the record.
#[verifier::rlimit(100)]
pub proof fn lemma_section64_roundtrip(x: Section64)
    requires
        x.wf(),
    ensures
        Section64::parseable(x.spec_serialize(), 0, Endian::Little),
        Section64::parses_to(x.spec_serialize(), 0, Endian::Little, x),
{
    let s = x.spec_serialize();
    assert(s.subrange(0, 16) =~= fixed_str_bytes(x.sectname@, 16));
    crate::endian::lemma_str_field(s, 0, x.sectname@, 16);
    assert(s.subrange(16, 32) =~= fixed_str_bytes(x.segname@, 16));
    crate::endian::lemma_str_field(s, 16, x.segname@, 16);
    assert(s.subrange(32, 40) =~= crate::bytes::le64(x.addr));
    crate::endian::lemma_u64_field(s, 32, x.addr);
    assert(s.subrange(40, 48) =~= crate::bytes::le64(x.size));
    crate::endian::lemma_u64_field(s, 40, x.size);
    assert(s.subrange(48, 52) =~= le32(x.offset));
    crate::endian::lemma_u32_field(s, 48, x.offset);
    assert(s.subrange(52, 56) =~= le32(x.align));
    crate::endian::lemma_u32_field(s, 52, x.align);
    assert(s.subrange(56, 60) =~= le32(x.reloff));
    crate::endian::lemma_u32_field(s, 56, x.reloff);
    assert(s.subrange(60, 64) =~= le32(x.nreloc));
    crate::endian::lemma_u32_field(s, 60, x.nreloc);
    assert(s.subrange(64, 68) =~= le32(x.spec_flags_word()));
    crate::endian::lemma_u32_field(s, 64, x.spec_flags_word());
    assert(x.flags.1.spec_to_u32() <= 0xB);
    lemma_flags_word_split(x.flags.0.spec_to_u32(), x.flags.1.spec_to_u32());
    assert(s.subrange(68, 72) =~= le32(x.reserved1));
    crate::endian::lemma_u32_field(s, 68, x.reserved1);
    assert(s.subrange(72, 76) =~= le32(x.reserved2));
    crate::endian::lemma_u32_field(s, 72, x.reserved2);
    assert(s.subrange(76, 80) =~= le32(x.reserved3));
    crate::endian::lemma_u32_field(s, 76, x.reserved3);
}

} // verus!
