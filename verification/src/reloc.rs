//! Relocation entries.

use crate::bytes::le32;
use crate::endian::{i32_at, le32_i, u32_at, Endian};
use vstd::prelude::*;

verus! {

/// The width of the field a relocation patches: 2^value bytes.
#[derive(Debug, Clone, Copy, PartialEq, Eq, Structural)]
pub enum RelocLength {
    /// 1 byte.
    Byte,
    /// 2 bytes.
    Word,
    /// 4 bytes.
    Long,
    /// 8 bytes.
    Quad,
}

impl RelocLength {
    /// The 2-bit value of this length.
    pub open spec fn spec_to_u32(self) -> u32 {
        match self {
            RelocLength::Byte => 0,
            RelocLength::Word => 1,
            RelocLength::Long => 2,
            RelocLength::Quad => 3,
        }
    }

    /// The length with the given value, if it fits two bits.
    pub open spec fn spec_from_u32(n: u32) -> Option<RelocLength> {
        if n == 0 {
            Some(RelocLength::Byte)
        } else if n == 1 {
            Some(RelocLength::Word)
        } else if n == 2 {
            Some(RelocLength::Long)
        } else if n == 3 {
            Some(RelocLength::Quad)
        } else {
            None
        }
    }

    /// The length with the given value.
    pub fn from_u32(n: u32) -> (r: RelocLength)
        requires
            RelocLength::spec_from_u32(n) is Some,
        ensures
            Some(r) == RelocLength::spec_from_u32(n),
    {
        if n == 0 {
            RelocLength::Byte
        } else if n == 1 {
            RelocLength::Word
        } else if n == 2 {
            RelocLength::Long
        } else if n == 3 {
            RelocLength::Quad
        } else {
            vstd::pervasive::unreached()
        }
    }

    /// The 2-bit value of this length.
    pub fn to_u32(self) -> (r: u32)
        ensures
            r == self.spec_to_u32(),
            r <= 3,
    {
        match self {
            RelocLength::Byte => 0,
            RelocLength::Word => 1,
            RelocLength::Long => 2,
            RelocLength::Quad => 3,
        }
    }
}

/// The relocation types of the 32-bit x86 architecture.
#[derive(Debug, Clone, Copy, PartialEq, Eq, Structural)]
pub enum X86RelocType {
    Vanilla,
    Pair,
    Sectdiff,
    PbLaPtr,
    LocalSectdiff,
    Tlv,
}

impl X86RelocType {
    /// The value of this relocation type.
    pub open spec fn spec_to_u8(self) -> u8 {
        match self {
            X86RelocType::Vanilla => 0,
            X86RelocType::Pair => 1,
            X86RelocType::Sectdiff => 2,
            X86RelocType::PbLaPtr => 3,
            X86RelocType::LocalSectdiff => 4,
            X86RelocType::Tlv => 5,
        }
    }

    /// The relocation type with the given value, if there is one.
    pub open spec fn spec_from_u8(n: u8) -> Option<X86RelocType> {
        if n == 0 {
            Some(X86RelocType::Vanilla)
        } else if n == 1 {
            Some(X86RelocType::Pair)
        } else if n == 2 {
            Some(X86RelocType::Sectdiff)
        } else if n == 3 {
            Some(X86RelocType::PbLaPtr)
        } else if n == 4 {
            Some(X86RelocType::LocalSectdiff)
        } else if n == 5 {
            Some(X86RelocType::Tlv)
        } else {
            None
        }
    }

    /// The relocation type with the given value.
    pub fn from_u8(n: u8) -> (r: X86RelocType)
        requires
            X86RelocType::spec_from_u8(n) is Some,
        ensures
            Some(r) == X86RelocType::spec_from_u8(n),
    {
        if n == 0 {
            X86RelocType::Vanilla
        } else if n == 1 {
            X86RelocType::Pair
        } else if n == 2 {
            X86RelocType::Sectdiff
        } else if n == 3 {
            X86RelocType::PbLaPtr
        } else if n == 4 {
            X86RelocType::LocalSectdiff
        } else if n == 5 {
            X86RelocType::Tlv
        } else {
            vstd::pervasive::unreached()
        }
    }

    /// The value of this relocation type.
    pub fn to_u8(self) -> (r: u8)
        ensures
            r == self.spec_to_u8(),
    {
        match self {
            X86RelocType::Vanilla => 0,
            X86RelocType::Pair => 1,
            X86RelocType::Sectdiff => 2,
            X86RelocType::PbLaPtr => 3,
            X86RelocType::LocalSectdiff => 4,
            X86RelocType::Tlv => 5,
        }
    }
}

/// The relocation types of the x86-64 architecture.
#[derive(Debug, Clone, Copy, PartialEq, Eq, Structural)]
pub enum X86_64RelocType {
    /// An absolute address.
    Unsigned,
    /// A signed 32-bit displacement.
    Signed,
    /// A CALL or JMP instruction with a 32-bit displacement.
    Branch,
    /// A MOVQ load of a GOT entry.
    GotLoad,
    /// Another GOT reference.
    Got,
    /// Must be followed by an `Unsigned` relocation.
    Subtractor,
    /// A signed 32-bit displacement with a -1 addend.
    Signed1,
    /// A signed 32-bit displacement with a -2 addend.
    Signed2,
    /// A signed 32-bit displacement with a -4 addend.
    Signed4,
    /// A thread-local variable.
    Tlv,
}

impl X86_64RelocType {
    /// The value of this relocation type.
    pub open spec fn spec_to_u8(self) -> u8 {
        match self {
            X86_64RelocType::Unsigned => 0,
            X86_64RelocType::Signed => 1,
            X86_64RelocType::Branch => 2,
            X86_64RelocType::GotLoad => 3,
            X86_64RelocType::Got => 4,
            X86_64RelocType::Subtractor => 5,
            X86_64RelocType::Signed1 => 6,
            X86_64RelocType::Signed2 => 7,
            X86_64RelocType::Signed4 => 8,
            X86_64RelocType::Tlv => 9,
        }
    }

    /// The relocation type with the given value, if there is one.
    pub open spec fn spec_from_u8(n: u8) -> Option<X86_64RelocType> {
        if n == 0 {
            Some(X86_64RelocType::Unsigned)
        } else if n == 1 {
            Some(X86_64RelocType::Signed)
        } else if n == 2 {
            Some(X86_64RelocType::Branch)
        } else if n == 3 {
            Some(X86_64RelocType::GotLoad)
        } else if n == 4 {
            Some(X86_64RelocType::Got)
        } else if n == 5 {
            Some(X86_64RelocType::Subtractor)
        } else if n == 6 {
            Some(X86_64RelocType::Signed1)
        } else if n == 7 {
            Some(X86_64RelocType::Signed2)
        } else if n == 8 {
            Some(X86_64RelocType::Signed4)
        } else if n == 9 {
            Some(X86_64RelocType::Tlv)
        } else {
            None
        }
    }

    /// The relocation type with the given value.
    pub fn from_u8(n: u8) -> (r: X86_64RelocType)
        requires
            X86_64RelocType::spec_from_u8(n) is Some,
        ensures
            Some(r) == X86_64RelocType::spec_from_u8(n),
    {
        if n == 0 {
            X86_64RelocType::Unsigned
        } else if n == 1 {
            X86_64RelocType::Signed
        } else if n == 2 {
            X86_64RelocType::Branch
        } else if n == 3 {
            X86_64RelocType::GotLoad
        } else if n == 4 {
            X86_64RelocType::Got
        } else if n == 5 {
            X86_64RelocType::Subtractor
        } else if n == 6 {
            X86_64RelocType::Signed1
        } else if n == 7 {
            X86_64RelocType::Signed2
        } else if n == 8 {
            X86_64RelocType::Signed4
        } else if n == 9 {
            X86_64RelocType::Tlv
        } else {
            vstd::pervasive::unreached()
        }
    }

    /// The value of this relocation type.
    pub fn to_u8(self) -> (r: u8)
        ensures
            r == self.spec_to_u8(),
            r <= 9,
    {
        match self {
            X86_64RelocType::Unsigned => 0,
            X86_64RelocType::Signed => 1,
            X86_64RelocType::Branch => 2,
            X86_64RelocType::GotLoad => 3,
            X86_64RelocType::Got => 4,
            X86_64RelocType::Subtractor => 5,
            X86_64RelocType::Signed1 => 6,
            X86_64RelocType::Signed2 => 7,
            X86_64RelocType::Signed4 => 8,
            X86_64RelocType::Tlv => 9,
        }
    }
}

/// One 8-byte relocation entry.
///
/// The second word is a bit field. On little-endian targets the symbol
/// number takes the low 24 bits, then one bit for `r_pcrel`, two for
/// `r_length`, one for `r_extern`, and the top four for `r_type`.
#[derive(Debug, Clone, Copy, PartialEq, Eq, Structural)]
pub struct RelocationInfo {
    /// The offset from the start of the section to the item holding the
    /// address to relocate.
    pub r_address: i32,
    /// A symbol index when `r_extern` is set, a section ordinal otherwise.
    pub r_symbolnum: u32,
    /// Whether the address is part of a PC-relative instruction.
    pub r_pcrel: bool,
    pub r_length: RelocLength,
    /// Whether `r_symbolnum` indexes the symbol table.
    pub r_extern: bool,
    /// The machine-specific relocation type.
    pub r_type: u8,
}

impl RelocationInfo {
    /// The serialized size of a relocation entry.
    pub const SIZE: u32 = 8;

    /// The symbol number fits its 24 bits and the type its 4 bits.
    pub open spec fn wf(self) -> bool {
        self.r_symbolnum < 0x1000000 && self.r_type < 16
    }

    /// The packed second word, in the little-endian layout.
    pub open spec fn spec_info_word(self) -> u32 {
        (self.r_symbolnum + (if self.r_pcrel {
            0x1000000int
        } else {
            0int
        }) + self.r_length.spec_to_u32() * 0x2000000 + (if self.r_extern {
            0x8000000int
        } else {
            0int
        }) + self.r_type * 0x10000000) as u32
    }

    /// The 8 serialized bytes of the entry, in little-endian order.
    pub open spec fn spec_serialize(self) -> Seq<u8> {
        le32_i(self.r_address) + le32(self.spec_info_word())
    }

    /// The entry read from 8 bytes at `pos`, unpacking the bit field in the
    /// layout of the byte order `e`.
    pub open spec fn spec_parse(s: Seq<u8>, pos: int, e: Endian) -> RelocationInfo {
        let infos = u32_at(s, pos + 4, e);
        match e {
            Endian::Little => RelocationInfo {
                r_address: i32_at(s, pos, e),
                r_symbolnum: (infos as int % 0x1000000) as u32,
                r_pcrel: (infos as int / 0x1000000) % 2 == 1,
                r_length: RelocLength::spec_from_u32(
                    ((infos as int / 0x2000000) % 4) as u32,
                )->Some_0,
                r_extern: (infos as int / 0x8000000) % 2 == 1,
                r_type: (infos as int / 0x10000000) as u8,
            },
            Endian::Big => RelocationInfo {
                r_address: i32_at(s, pos, e),
                r_symbolnum: (infos as int / 0x100) as u32,
                r_pcrel: (infos as int / 0x80) % 2 == 1,
                r_length: RelocLength::spec_from_u32(((infos as int / 0x20) % 4) as u32)->Some_0,
                r_extern: (infos as int / 0x10) % 2 == 1,
                r_type: (infos as int % 0x10) as u8,
            },
        }
    }

    /// Serializes the entry, appending its 8 bytes to `buf`.
    pub fn write_into(&self, buf: &mut Vec<u8>)
        requires
            self.wf(),
        ensures
            final(buf)@ == old(buf)@ + self.spec_serialize(),
            final(buf)@.len() == old(buf)@.len() + 8,
    {
        crate::endian::push_i32_le(buf, self.r_address);
        let mut infos: u32 = self.r_symbolnum;
        if self.r_pcrel {
            infos += 0x1000000;
        }
        infos += self.r_length.to_u32() * 0x2000000;
        if self.r_extern {
            infos += 0x8000000;
        }
        infos += (self.r_type as u32) * 0x10000000;
        crate::bytes::push_u32_le(buf, infos);
        assert(final(buf)@ =~= old(buf)@ + self.spec_serialize());
    }

    /// Reads a relocation entry from 8 bytes at `pos` in byte order `e`.
    pub fn read_from_in(s: &Vec<u8>, pos: usize, e: Endian) -> (r: RelocationInfo)
        requires
            0 <= pos,
            pos + 8 <= s@.len(),
        ensures
            r == RelocationInfo::spec_parse(s@, pos as int, e),
    {
        let slen: usize = s.len();
        let r_address = crate::endian::read_i32_in(s, pos, e);
        let infos = crate::endian::read_u32_in(s, pos + 4, e);
        match e {
            Endian::Little => RelocationInfo {
                r_address,
                r_symbolnum: infos % 0x1000000,
                r_pcrel: (infos / 0x1000000) % 2 == 1,
                r_length: RelocLength::from_u32((infos / 0x2000000) % 4),
                r_extern: (infos / 0x8000000) % 2 == 1,
                r_type: (infos / 0x10000000) as u8,
            },
            Endian::Big => RelocationInfo {
                r_address,
                r_symbolnum: infos / 0x100,
                r_pcrel: (infos / 0x80) % 2 == 1,
                r_length: RelocLength::from_u32((infos / 0x20) % 4),
                r_extern: (infos / 0x10) % 2 == 1,
                r_type: (infos % 0x10) as u8,
            },
        }
    }
}

/// Reading back a serialized relocation entry gives the entry.
pub proof fn lemma_relocation_info_roundtrip(x: RelocationInfo)
    requires
        x.wf(),
    ensures
        RelocationInfo::spec_parse(x.spec_serialize(), 0, Endian::Little) == x,
{
    let s = x.spec_serialize();
    assert(s.subrange(0, 4) =~= le32_i(x.r_address));
    crate::endian::lemma_i32_field(s, 0, x.r_address);
    let w = x.spec_info_word();
    assert(s.subrange(4, 8) =~= le32(w));
    crate::endian::lemma_u32_field(s, 4, w);
    let sn = x.r_symbolnum;
    let p: u32 = if x.r_pcrel {
        1
    } else {
        0
    };
    let lv = x.r_length.spec_to_u32();
    let ex: u32 = if x.r_extern {
        1
    } else {
        0
    };
    let tv = x.r_type;
    assert((sn < 0x1000000 && p <= 1 && lv <= 3 && ex <= 1 && tv < 16 && w == (sn + p * 0x1000000
        + lv * 0x2000000 + ex * 0x8000000 + tv * 0x10000000) as u32) ==> (w % 0x1000000 == sn && (w
        / 0x1000000) % 2 == p && (w / 0x2000000) % 4 == lv && (w / 0x8000000) % 2 == ex && w
        / 0x10000000 == tv as u32)) by (bit_vector);
}

} // verus!
