//! Symbol table entries.

use crate::bytes::{le16, le32, le64};
use crate::endian::{u16_at, u32_at, u64_at, Endian};
use vstd::prelude::*;

verus! {

/// The basic type of a symbol.
#[derive(Debug, Clone, Copy, PartialEq, Eq, Structural)]
pub enum NType {
    /// Undefined: referenced here, defined in another module.
    Undf,
    /// Absolute: the value is not relocated.
    Abs,
    /// Defined in the section numbered by `n_sect`.
    Sect,
    /// Prebound undefined (defined in a dylib).
    Pbud,
    /// Indirect: defined to be the same as another symbol.
    Indr,
}

impl NType {
    /// The value of this type within the `n_type` byte.
    pub open spec fn spec_to_u8(self) -> u8 {
        match self {
            NType::Undf => 0x0,
            NType::Abs => 0x2,
            NType::Sect => 0xe,
            NType::Pbud => 0xc,
            NType::Indr => 0xa,
        }
    }

    /// The type with the given value, if there is one.
    pub open spec fn spec_from_u8(n: u8) -> Option<NType> {
        if n == 0x0 {
            Some(NType::Undf)
        } else if n == 0x2 {
            Some(NType::Abs)
        } else if n == 0xe {
            Some(NType::Sect)
        } else if n == 0xc {
            Some(NType::Pbud)
        } else if n == 0xa {
            Some(NType::Indr)
        } else {
            None
        }
    }

    /// The type with the given value.
    pub fn from_u8(n: u8) -> (r: NType)
        requires
            NType::spec_from_u8(n) is Some,
        ensures
            Some(r) == NType::spec_from_u8(n),
    {
        if n == 0x0 {
            NType::Undf
        } else if n == 0x2 {
            NType::Abs
        } else if n == 0xe {
            NType::Sect
        } else if n == 0xc {
            NType::Pbud
        } else if n == 0xa {
            NType::Indr
        } else {
            vstd::pervasive::unreached()
        }
    }

    /// The value of this type within the `n_type` byte.
    pub fn to_u8(self) -> (r: u8)
        ensures
            r == self.spec_to_u8(),
    {
        match self {
            NType::Undf => 0x0,
            NType::Abs => 0x2,
            NType::Sect => 0xe,
            NType::Pbud => 0xc,
            NType::Indr => 0xa,
        }
    }
}

/// A symbolic debugging entry kind.
#[derive(Debug, Clone, Copy, PartialEq, Eq, Structural)]
pub enum DebugSymbol {
    /// A global symbol.
    Gsym,
}

impl DebugSymbol {
    /// The value of this debugging kind within the `n_type` byte.
    pub open spec fn spec_to_u8(self) -> u8 {
        match self {
            DebugSymbol::Gsym => 0x20,
        }
    }

    /// The debugging kind with the given value, if there is one.
    pub open spec fn spec_from_u8(n: u8) -> Option<DebugSymbol> {
        if n == 0x20 {
            Some(DebugSymbol::Gsym)
        } else {
            None
        }
    }

    /// The debugging kind with the given value.
    pub fn from_u8(n: u8) -> (r: DebugSymbol)
        requires
            DebugSymbol::spec_from_u8(n) is Some,
        ensures
            Some(r) == DebugSymbol::spec_from_u8(n),
    {
        if n == 0x20 {
            DebugSymbol::Gsym
        } else {
            vstd::pervasive::unreached()
        }
    }

    /// The value of this debugging kind within the `n_type` byte.
    pub fn to_u8(self) -> (r: u8)
        ensures
            r == self.spec_to_u8(),
    {
        match self {
            DebugSymbol::Gsym => 0x20,
        }
    }
}

/// The `n_type` byte: either a normal symbol, packing the private-external
/// bit (`0x10`), the basic type (`0x0e`) and the external bit (`0x01`), or,
/// when any of the high three bits (`0xe0`) is set, a debugging entry.
#[derive(Debug, Clone, Copy, PartialEq, Eq, Structural)]
pub enum NTypeField {
    Norm { n_pext: bool, n_type: NType, n_ext: bool },
    Stab(DebugSymbol),
}

impl NTypeField {
    /// The packed `n_type` byte.
    pub open spec fn spec_to_u8(self) -> u8 {
        match self {
            NTypeField::Norm { n_pext, n_type, n_ext } => ((if n_pext {
                0x10int
            } else {
                0int
            }) + n_type.spec_to_u8() + (if n_ext {
                1int
            } else {
                0int
            })) as u8,
            NTypeField::Stab(stab) => stab.spec_to_u8(),
        }
    }

    /// The field packed in the given byte, if its type values are known.
    pub open spec fn spec_from_u8(n: u8) -> Option<NTypeField> {
        if n & 0xe0 == 0 {
            match NType::spec_from_u8(n & 0x0e) {
                Some(t) => Some(
                    NTypeField::Norm {
                        n_pext: n & 0x10 == 0x10,
                        n_type: t,
                        n_ext: n & 0x01 == 0x01,
                    },
                ),
                None => None,
            }
        } else {
            match DebugSymbol::spec_from_u8(n & 0xe0) {
                Some(d) => Some(NTypeField::Stab(d)),
                None => None,
            }
        }
    }

    /// The field packed in the given byte.
    pub fn from_u8(n: u8) -> (r: NTypeField)
        requires
            NTypeField::spec_from_u8(n) is Some,
        ensures
            Some(r) == NTypeField::spec_from_u8(n),
    {
        if n & 0xe0 == 0 {
            NTypeField::Norm {
                n_pext: n & 0x10 == 0x10,
                n_type: NType::from_u8(n & 0x0e),
                n_ext: n & 0x01 == 0x01,
            }
        } else {
            NTypeField::Stab(DebugSymbol::from_u8(n & 0xe0))
        }
    }

    /// The packed `n_type` byte.
    pub fn to_u8(self) -> (r: u8)
        ensures
            r == self.spec_to_u8(),
    {
        match self {
            NTypeField::Norm { n_pext, n_type, n_ext } => {
                let mut n: u8 = n_type.to_u8();
                if n_pext {
                    n += 0x10;
                }
                if n_ext {
                    n += 0x01;
                }
                n
            },
            NTypeField::Stab(stab) => stab.to_u8(),
        }
    }
}

/// Unpacking the packed `n_type` byte gives back the field.
pub proof fn lemma_ntype_field_roundtrip(x: NTypeField)
    ensures
        NTypeField::spec_from_u8(x.spec_to_u8()) == Some(x),
{
    match x {
        NTypeField::Norm { n_pext, n_type, n_ext } => {
            let tv = n_type.spec_to_u8();
            let p: u8 = if n_pext {
                0x10
            } else {
                0
            };
            let e: u8 = if n_ext {
                1
            } else {
                0
            };
            let n = x.spec_to_u8();
            assert(tv == 0x0 || tv == 0x2 || tv == 0xe || tv == 0xc || tv == 0xa);
            assert((p == 0 || p == 0x10) && (e == 0 || e == 1) && (tv == 0x0 || tv == 0x2 || tv
                == 0xe || tv == 0xc || tv == 0xa) && n == (p + tv + e) as u8 ==> (n & 0xe0 == 0 && n
                & 0x0e == tv && (n & 0x10 == 0x10) == (p == 0x10) && (n & 0x01 == 0x01) == (e
                == 1))) by (bit_vector);
        },
        NTypeField::Stab(stab) => {
            let n = x.spec_to_u8();
            assert(n == 0x20);
            assert(0x20u8 & 0xe0 == 0x20 && !(0x20u8 & 0xe0 == 0)) by (bit_vector);
        },
    }
}

/// One 16-byte symbol table entry.
#[derive(Debug, Clone, Copy, PartialEq, Eq, Structural)]
pub struct NList64 {
    /// The byte offset of the symbol's name in the string table; 0 names
    /// the empty string.
    pub n_strx: u32,
    /// The packed type byte.
    pub n_type: NTypeField,
    /// The 1-based ordinal of the section the symbol is defined in, or
    /// `NList64::NO_SECT`.
    pub n_sect: u8,
    /// Additional information about the symbol.
    pub n_desc: u16,
    /// The symbol's value; for section symbols, its address.
    pub n_value: u64,
}

impl NList64 {
    /// The serialized size of a symbol table entry.
    pub const SIZE: u32 = 0x10;

    /// The section ordinal of symbols defined in no section.
    pub const NO_SECT: u8 = 0;

    /// The largest section ordinal.
    pub const MAX_SECT: u8 = 255;

    /// The 16 serialized bytes of the entry, in little-endian order.
    pub open spec fn spec_serialize(self) -> Seq<u8> {
        le32(self.n_strx) + seq![self.n_type.spec_to_u8(), self.n_sect] + le16(self.n_desc) + le64(
            self.n_value,
        )
    }

    /// The entry read from 16 bytes at `pos` in byte order `e`.
    pub open spec fn spec_parse(s: Seq<u8>, pos: int, e: Endian) -> NList64 {
        NList64 {
            n_strx: u32_at(s, pos, e),
            n_type: NTypeField::spec_from_u8(s[pos + 4])->Some_0,
            n_sect: s[pos + 5],
            n_desc: u16_at(s, pos + 6, e),
            n_value: u64_at(s, pos + 8, e),
        }
    }

    /// The 16 bytes at `pos` parse as a symbol table entry.
    pub open spec fn parseable(s: Seq<u8>, pos: int, e: Endian) -> bool {
        &&& 0 <= pos
        &&& pos + 16 <= s.len()
        &&& NTypeField::spec_from_u8(s[pos + 4]) is Some
    }

    /// Serializes the entry, appending its 16 bytes to `buf`.
    pub fn write_into(&self, buf: &mut Vec<u8>)
        ensures
            final(buf)@ == old(buf)@ + self.spec_serialize(),
            final(buf)@.len() == old(buf)@.len() + 16,
    {
        crate::bytes::push_u32_le(buf, self.n_strx);
        buf.push(self.n_type.to_u8());
        buf.push(self.n_sect);
        crate::bytes::push_u16_le(buf, self.n_desc);
        crate::bytes::push_u64_le(buf, self.n_value);
        assert(final(buf)@ =~= old(buf)@ + self.spec_serialize());
    }

    /// Reads a symbol table entry from 16 bytes at `pos` in byte order `e`.
    pub fn read_from_in(s: &Vec<u8>, pos: usize, e: Endian) -> (r: NList64)
        requires
            NList64::parseable(s@, pos as int, e),
        ensures
            r == NList64::spec_parse(s@, pos as int, e),
    {
        let slen: usize = s.len();
        NList64 {
            n_strx: crate::endian::read_u32_in(s, pos, e),
            n_type: NTypeField::from_u8(s[pos + 4]),
            n_sect: s[pos + 5],
            n_desc: crate::endian::read_u16_in(s, pos + 6, e),
            n_value: crate::endian::read_u64_in(s, pos + 8, e),
        }
    }
}

/// Reading back a serialized symbol table entry gives the entry.
pub proof fn lemma_nlist64_roundtrip(x: NList64)
    ensures
        NList64::parseable(x.spec_serialize(), 0, Endian::Little),
        NList64::spec_parse(x.spec_serialize(), 0, Endian::Little) == x,
{
    let s = x.spec_serialize();
    assert(s.subrange(0, 4) =~= le32(x.n_strx));
    crate::endian::lemma_u32_field(s, 0, x.n_strx);
    assert(s[4] == x.n_type.spec_to_u8());
    lemma_ntype_field_roundtrip(x.n_type);
    assert(s[5] == x.n_sect);
    assert(s.subrange(6, 8) =~= le16(x.n_desc));
    crate::endian::lemma_u16_field(s, 6, x.n_desc);
    assert(s.subrange(8, 16) =~= le64(x.n_value));
    crate::endian::lemma_u64_field(s, 8, x.n_value);
}

} // verus!
