//! 64-bit effective-address operands and their ModR/M derivation.

use crate::bytes::le32;
use crate::reg::Reg64;
use vstd::prelude::*;

verus! {

/// A 64-bit effective address.
///
/// `RegOffset(RBP, 0)` and `RegOffset(R13, 0)` are encoded as `[reg + 0]`
/// with an explicit zero disp8, because `mod=00 r/m=101` is reserved for
/// RIP-relative addressing. `RegOffset(RSP, d)` and `RegOffset(R12, d)` are
/// encoded through a SIB byte, because `r/m=100` selects the SIB form.
/// Passing RSP as a SIB index means "no index".
#[derive(Debug, Clone, Copy, PartialEq, Eq, Structural)]
pub enum Mem64 {
    /// `[reg + disp]`
    RegOffset(Reg64, u32),
    /// `[rip + disp]`
    RipOffset(u32),
    /// `[base + index * 2^scale + disp]`; no base means disp32 only.
    Sib { base: Option<Reg64>, disp: u32, index: Reg64, scale: u8 },
}

impl Mem64 {
    /// The scale of a SIB form is a 2-bit shift amount.
    pub open spec fn wf(self) -> bool {
        match self {
            Mem64::Sib { scale, .. } => scale <= 3,
            _ => true,
        }
    }

    /// `[reg]`
    pub fn reg(reg: Reg64) -> (r: Self)
        ensures
            r == Mem64::RegOffset(reg, 0u32),
            r.wf(),
    {
        Mem64::RegOffset(reg, 0)
    }

    /// `[reg + offset]`
    pub fn reg_offset(reg: Reg64, offset: u32) -> (r: Self)
        ensures
            r == Mem64::RegOffset(reg, offset),
            r.wf(),
    {
        Mem64::RegOffset(reg, offset)
    }

    /// `[rip + offset]`
    pub fn rip_offset(offset: u32) -> (r: Self)
        ensures
            r == Mem64::RipOffset(offset),
            r.wf(),
    {
        Mem64::RipOffset(offset)
    }

    /// `[base + index * 2^scale + disp]`
    pub fn sib(base: Option<Reg64>, disp: u32, index: Reg64, scale: u8) -> (r: Self)
        requires
            scale <= 3,
        ensures
            r == (Mem64::Sib { base, disp, index, scale }),
            r.wf(),
    {
        Mem64::Sib { base, disp, index, scale }
    }

    /// Whether the base register needs REX.B.
    pub open spec fn spec_rex_b(self) -> bool {
        match self {
            Mem64::RegOffset(reg, _) => reg.spec_extended(),
            Mem64::RipOffset(_) => false,
            Mem64::Sib { base: Some(base), .. } => base.spec_extended(),
            Mem64::Sib { base: None, .. } => false,
        }
    }

    /// Whether the index register needs REX.X.
    pub open spec fn spec_rex_x(self) -> bool {
        match self {
            Mem64::Sib { index, .. } => index.spec_extended(),
            _ => false,
        }
    }

    /// The 2-bit ModR/M mode field.
    ///
    /// RBP and R13 as plain bases always carry a displacement, since their
    /// `mod=00` encodings are taken by RIP-relative and no-base addressing.
    /// A displacement in `1..=256` is emitted as one byte, anything larger
    /// as four bytes.
    pub open spec fn spec_mode(self) -> u8 {
        match self {
            Mem64::RegOffset(reg, disp) => {
                if (reg == Reg64::RBP || reg == Reg64::R13) && disp == 0 {
                    1
                } else if disp == 0 {
                    0
                } else if 1 <= disp <= 256 {
                    1
                } else {
                    2
                }
            },
            Mem64::RipOffset(_) => 0,
            Mem64::Sib { base: None, .. } => 0,
            Mem64::Sib { base: Some(base), disp, .. } => {
                if base == Reg64::RBP || base == Reg64::R13 {
                    if disp <= 256 {
                        1
                    } else {
                        2
                    }
                } else if disp == 0 {
                    0
                } else if 1 <= disp <= 256 {
                    1
                } else {
                    2
                }
            },
        }
    }

    /// The 3-bit ModR/M r/m field.
    pub open spec fn spec_rm(self) -> u8 {
        match self {
            Mem64::RegOffset(reg, _) => {
                if reg == Reg64::RSP || reg == Reg64::R12 {
                    4
                } else {
                    reg.spec_code()
                }
            },
            Mem64::RipOffset(_) => 5,
            Mem64::Sib { .. } => 4,
        }
    }

    /// The SIB byte, if the address needs one, as `scale*64 + index*8 + base`.
    pub open spec fn spec_sib(self) -> Option<u8> {
        match self {
            Mem64::RegOffset(reg, _) => {
                if reg == Reg64::RSP || reg == Reg64::R12 {
                    // scale=0, index=100 (none), base=reg code (100)
                    Some((4 * 8 + 4) as u8)
                } else {
                    None
                }
            },
            Mem64::RipOffset(_) => None,
            Mem64::Sib { base: None, index, scale, .. } => Some(
                (scale as int * 64 + index.spec_code() as int * 8 + 5) as u8,
            ),
            Mem64::Sib { base: Some(base), index, scale, .. } => Some(
                (scale as int * 64 + index.spec_code() as int * 8 + base.spec_code() as int) as u8,
            ),
        }
    }

    /// The REX.B bit for this address.
    pub fn rex_b_bit(&self) -> (r: bool)
        ensures
            r == self.spec_rex_b(),
    {
        match self {
            Mem64::RegOffset(reg, _) => reg.rex_b_bit(),
            Mem64::RipOffset(_) => false,
            Mem64::Sib { base: Some(base), .. } => base.rex_b_bit(),
            Mem64::Sib { base: None, .. } => false,
        }
    }

    /// The REX.X bit for this address.
    pub fn rex_x_bit(&self) -> (r: bool)
        ensures
            r == self.spec_rex_x(),
    {
        match self {
            Mem64::Sib { index, .. } => index.is_extended(),
            _ => false,
        }
    }

    /// The ModR/M mode bits for this address.
    pub fn mode_bits(&self) -> (r: u8)
        ensures
            r == self.spec_mode(),
            r <= 3,
    {
        match self {
            Mem64::RegOffset(reg, disp) => {
                if (matches!(reg, Reg64::RBP) || matches!(reg, Reg64::R13)) && *disp == 0 {
                    1
                } else if *disp == 0 {
                    0
                } else if *disp <= 256 {
                    1
                } else {
                    2
                }
            },
            Mem64::RipOffset(_) => 0,
            Mem64::Sib { base: None, .. } => 0,
            Mem64::Sib { base: Some(base), disp, .. } => {
                if matches!(base, Reg64::RBP) || matches!(base, Reg64::R13) {
                    if *disp <= 256 {
                        1
                    } else {
                        2
                    }
                } else if *disp == 0 {
                    0
                } else if *disp <= 256 {
                    1
                } else {
                    2
                }
            },
        }
    }

    /// The ModR/M r/m bits for this address.
    pub fn rm_bits(&self) -> (r: u8)
        ensures
            r == self.spec_rm(),
            r <= 7,
    {
        match self {
            Mem64::RegOffset(reg, _) => {
                if matches!(reg, Reg64::RSP) || matches!(reg, Reg64::R12) {
                    4
                } else {
                    reg.register_code()
                }
            },
            Mem64::RipOffset(_) => 5,
            Mem64::Sib { .. } => 4,
        }
    }

    /// The SIB byte for this address, if it needs one.
    pub fn sib_byte(&self) -> (r: Option<crate::bytecode::Sib>)
        requires
            self.wf(),
        ensures
            match r {
                Some(s) => self.spec_sib() == Some(s.spec_byte()) && s.wf(),
                None => self.spec_sib() is None,
            },
    {
        match self {
            Mem64::RegOffset(reg, _) => {
                if matches!(reg, Reg64::RSP) || matches!(reg, Reg64::R12) {
                    Some(crate::bytecode::Sib::new(0, 4, 4))
                } else {
                    None
                }
            },
            Mem64::RipOffset(_) => None,
            Mem64::Sib { base: None, index, scale, .. } => Some(
                crate::bytecode::Sib::new(*scale, index.register_code(), 5),
            ),
            Mem64::Sib { base: Some(base), index, scale, .. } => Some(
                crate::bytecode::Sib::new(*scale, index.register_code(), base.register_code()),
            ),
        }
    }

    /// The displacement bytes for this address.
    pub fn disp_bytes(&self) -> (r: crate::bytes::BytesAtMost<4>)
        ensures
            r@ == self.spec_disp(),
    {
        match self {
            Mem64::RegOffset(reg, disp) => {
                if (matches!(reg, Reg64::RBP) || matches!(reg, Reg64::R13)) && *disp == 0 {
                    crate::bytes::BytesAtMost::from_u8(0)
                } else if *disp == 0 {
                    crate::bytes::BytesAtMost::with_len(0)
                } else if *disp <= 256 {
                    crate::bytes::BytesAtMost::from_u8((*disp % 256) as u8)
                } else {
                    crate::bytes::BytesAtMost::from_u32(*disp)
                }
            },
            Mem64::RipOffset(disp) => crate::bytes::BytesAtMost::from_u32(*disp),
            Mem64::Sib { base: None, disp, .. } => crate::bytes::BytesAtMost::from_u32(*disp),
            Mem64::Sib { base: Some(base), disp, .. } => {
                if (matches!(base, Reg64::RBP) || matches!(base, Reg64::R13)) && *disp == 0 {
                    crate::bytes::BytesAtMost::from_u8(0)
                } else if *disp == 0 {
                    crate::bytes::BytesAtMost::with_len(0)
                } else if *disp <= 256 {
                    crate::bytes::BytesAtMost::from_u8((*disp % 256) as u8)
                } else {
                    crate::bytes::BytesAtMost::from_u32(*disp)
                }
            },
        }
    }

    /// The displacement bytes the address carries.
    pub open spec fn spec_disp(self) -> Seq<u8> {
        match self {
            Mem64::RegOffset(reg, disp) => {
                if (reg == Reg64::RBP || reg == Reg64::R13) && disp == 0 {
                    seq![0u8]
                } else if disp == 0 {
                    seq![]
                } else if 1 <= disp <= 256 {
                    seq![(disp as int % 256) as u8]
                } else {
                    le32(disp)
                }
            },
            Mem64::RipOffset(disp) => le32(disp),
            Mem64::Sib { base: None, disp, .. } => le32(disp),
            Mem64::Sib { base: Some(base), disp, .. } => {
                if (base == Reg64::RBP || base == Reg64::R13) && disp == 0 {
                    seq![0u8]
                } else if disp == 0 {
                    seq![]
                } else if 1 <= disp <= 256 {
                    seq![(disp as int % 256) as u8]
                } else {
                    le32(disp)
                }
            },
        }
    }
}

} // verus!
