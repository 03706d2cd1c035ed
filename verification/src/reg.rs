//! The x86-64 general-purpose register families.

use vstd::prelude::*;

verus! {

/// A register of any of the four widths.
#[derive(Debug, Clone, Copy, PartialEq, Eq, Structural)]
pub enum Reg {
    Reg64(Reg64),
    Reg32(Reg32),
    Reg16(Reg16),
    Reg8(Reg8),
}

/// A 64-bit general-purpose register.
#[derive(Debug, Clone, Copy, PartialEq, Eq, Structural)]
pub enum Reg64 {
    RAX,
    RDI,
    RSI,
    RDX,
    RCX,
    RBP,
    RSP,
    RBX,
    R8,
    R9,
    R10,
    R11,
    R12,
    R13,
    R14,
    R15,
}

impl Reg64 {
    /// The low three bits of the register's 4-bit index.
    pub open spec fn spec_code(self) -> u8 {
        match self {
            Reg64::RAX | Reg64::R8 => 0,
            Reg64::RCX | Reg64::R9 => 1,
            Reg64::RDX | Reg64::R10 => 2,
            Reg64::RBX | Reg64::R11 => 3,
            Reg64::RSP | Reg64::R12 => 4,
            Reg64::RBP | Reg64::R13 => 5,
            Reg64::RSI | Reg64::R14 => 6,
            Reg64::RDI | Reg64::R15 => 7,
        }
    }

    /// Whether the register is one of R8 through R15 (bit 4 of its index).
    pub open spec fn spec_extended(self) -> bool {
        match self {
            Reg64::R8 | Reg64::R9 | Reg64::R10 | Reg64::R11 | Reg64::R12 | Reg64::R13
            | Reg64::R14 | Reg64::R15 => true,
            _ => false,
        }
    }

    /// The 3-bit register code used in ModR/M and SIB fields.
    pub fn register_code(&self) -> (r: u8)
        ensures
            r == self.spec_code(),
            r <= 7,
    {
        match self {
            Reg64::RAX | Reg64::R8 => 0,
            Reg64::RCX | Reg64::R9 => 1,
            Reg64::RDX | Reg64::R10 => 2,
            Reg64::RBX | Reg64::R11 => 3,
            Reg64::RSP | Reg64::R12 => 4,
            Reg64::RBP | Reg64::R13 => 5,
            Reg64::RSI | Reg64::R14 => 6,
            Reg64::RDI | Reg64::R15 => 7,
        }
    }

    /// Whether the register was added with x86-64 (R8 through R15).
    pub fn is_extended(&self) -> (r: bool)
        ensures
            r == self.spec_extended(),
    {
        match self {
            Reg64::RAX | Reg64::RCX | Reg64::RDX | Reg64::RBX | Reg64::RSP | Reg64::RBP
            | Reg64::RSI | Reg64::RDI => false,
            _ => true,
        }
    }

    /// The REX.R bit needed when this register stands in ModR/M.reg.
    pub fn rex_r_bit(&self) -> (r: bool)
        ensures
            r == self.spec_extended(),
    {
        self.is_extended()
    }

    /// The REX.B bit needed when this register stands in ModR/M.r/m.
    pub fn rex_b_bit(&self) -> (r: bool)
        ensures
            r == self.spec_extended(),
    {
        self.is_extended()
    }

    /// The ModR/M mode bits for a direct register operand.
    pub fn mode_bits(&self) -> (r: u8)
        ensures
            r == 3,
    {
        3
    }

    /// The ModR/M reg field bits.
    pub fn reg_bits(&self) -> (r: u8)
        ensures
            r == self.spec_code(),
            r <= 7,
    {
        self.register_code()
    }

    /// The ModR/M r/m field bits.
    pub fn rm_bits(&self) -> (r: u8)
        ensures
            r == self.spec_code(),
            r <= 7,
    {
        self.register_code()
    }
}

/// A 32-bit general-purpose register.
#[derive(Debug, Clone, Copy, PartialEq, Eq, Structural)]
pub enum Reg32 {
    EAX,
    EDI,
    ESI,
    EDX,
    ECX,
    EBP,
    ESP,
    EBX,
    R8D,
    R9D,
    R10D,
    R11D,
    R12D,
    R13D,
    R14D,
    R15D,
}

impl Reg32 {
    /// The 64-bit register this register is the low half of.
    pub open spec fn spec_to_reg64(self) -> Reg64 {
        match self {
            Reg32::EAX => Reg64::RAX,
            Reg32::EDI => Reg64::RDI,
            Reg32::ESI => Reg64::RSI,
            Reg32::EDX => Reg64::RDX,
            Reg32::ECX => Reg64::RCX,
            Reg32::EBP => Reg64::RBP,
            Reg32::ESP => Reg64::RSP,
            Reg32::EBX => Reg64::RBX,
            Reg32::R8D => Reg64::R8,
            Reg32::R9D => Reg64::R9,
            Reg32::R10D => Reg64::R10,
            Reg32::R11D => Reg64::R11,
            Reg32::R12D => Reg64::R12,
            Reg32::R13D => Reg64::R13,
            Reg32::R14D => Reg64::R14,
            Reg32::R15D => Reg64::R15,
        }
    }

    /// The low three bits of the register's index.
    pub open spec fn spec_code(self) -> u8 {
        self.spec_to_reg64().spec_code()
    }

    /// Whether the register belongs to R8D through R15D.
    pub open spec fn spec_extended(self) -> bool {
        self.spec_to_reg64().spec_extended()
    }

    /// The 64-bit register with the same index.
    pub fn to_reg64(self) -> (r: Reg64)
        ensures
            r == self.spec_to_reg64(),
    {
        match self {
            Reg32::EAX => Reg64::RAX,
            Reg32::EDI => Reg64::RDI,
            Reg32::ESI => Reg64::RSI,
            Reg32::EDX => Reg64::RDX,
            Reg32::ECX => Reg64::RCX,
            Reg32::EBP => Reg64::RBP,
            Reg32::ESP => Reg64::RSP,
            Reg32::EBX => Reg64::RBX,
            Reg32::R8D => Reg64::R8,
            Reg32::R9D => Reg64::R9,
            Reg32::R10D => Reg64::R10,
            Reg32::R11D => Reg64::R11,
            Reg32::R12D => Reg64::R12,
            Reg32::R13D => Reg64::R13,
            Reg32::R14D => Reg64::R14,
            Reg32::R15D => Reg64::R15,
        }
    }

    /// The 3-bit register code used in ModR/M and SIB fields.
    pub fn register_code(&self) -> (r: u8)
        ensures
            r == self.spec_code(),
            r <= 7,
    {
        self.to_reg64().register_code()
    }

    /// Whether the register was added with x86-64.
    pub fn is_extended(&self) -> (r: bool)
        ensures
            r == self.spec_extended(),
    {
        self.to_reg64().is_extended()
    }
}

/// A 16-bit general-purpose register.
#[derive(Debug, Clone, Copy, PartialEq, Eq, Structural)]
pub enum Reg16 {
    AX,
    DI,
    SI,
    DX,
    CX,
    BP,
    SP,
    BX,
    R8W,
    R9W,
    R10W,
    R11W,
    R12W,
    R13W,
    R14W,
    R15W,
}

impl Reg16 {
    /// The 32-bit register this register is the low half of.
    pub open spec fn spec_to_reg32(self) -> Reg32 {
        match self {
            Reg16::AX => Reg32::EAX,
            Reg16::DI => Reg32::EDI,
            Reg16::SI => Reg32::ESI,
            Reg16::DX => Reg32::EDX,
            Reg16::CX => Reg32::ECX,
            Reg16::BP => Reg32::EBP,
            Reg16::SP => Reg32::ESP,
            Reg16::BX => Reg32::EBX,
            Reg16::R8W => Reg32::R8D,
            Reg16::R9W => Reg32::R9D,
            Reg16::R10W => Reg32::R10D,
            Reg16::R11W => Reg32::R11D,
            Reg16::R12W => Reg32::R12D,
            Reg16::R13W => Reg32::R13D,
            Reg16::R14W => Reg32::R14D,
            Reg16::R15W => Reg32::R15D,
        }
    }

    /// The low three bits of the register's index.
    pub open spec fn spec_code(self) -> u8 {
        self.spec_to_reg32().spec_code()
    }

    /// Whether the register belongs to R8W through R15W.
    pub open spec fn spec_extended(self) -> bool {
        self.spec_to_reg32().spec_extended()
    }

    /// The 32-bit register with the same index.
    pub fn to_reg32(self) -> (r: Reg32)
        ensures
            r == self.spec_to_reg32(),
    {
        match self {
            Reg16::AX => Reg32::EAX,
            Reg16::DI => Reg32::EDI,
            Reg16::SI => Reg32::ESI,
            Reg16::DX => Reg32::EDX,
            Reg16::CX => Reg32::ECX,
            Reg16::BP => Reg32::EBP,
            Reg16::SP => Reg32::ESP,
            Reg16::BX => Reg32::EBX,
            Reg16::R8W => Reg32::R8D,
            Reg16::R9W => Reg32::R9D,
            Reg16::R10W => Reg32::R10D,
            Reg16::R11W => Reg32::R11D,
            Reg16::R12W => Reg32::R12D,
            Reg16::R13W => Reg32::R13D,
            Reg16::R14W => Reg32::R14D,
            Reg16::R15W => Reg32::R15D,
        }
    }

    /// The 3-bit register code used in ModR/M and SIB fields.
    pub fn register_code(&self) -> (r: u8)
        ensures
            r == self.spec_code(),
            r <= 7,
    {
        self.to_reg32().register_code()
    }

    /// Whether the register was added with x86-64.
    pub fn is_extended(&self) -> (r: bool)
        ensures
            r == self.spec_extended(),
    {
        self.to_reg32().is_extended()
    }
}

/// An 8-bit general-purpose register.
#[derive(Debug, Clone, Copy, PartialEq, Eq, Structural)]
pub enum Reg8 {
    AL,
    DIL,
    SIL,
    DL,
    CL,
    BPL,
    SPL,
    BL,
    R8B,
    R9B,
    R10B,
    R11B,
    R12B,
    R13B,
    R14B,
    R15B,
}

} // verus!
