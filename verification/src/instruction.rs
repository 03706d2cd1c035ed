//! The instruction catalogue: each supported mnemonic and operand-type
//! pair, with its exact encoding.

use crate::bytecode::{ByteCode, ModRM, Rex};
use crate::bytes::{le16, le32, le64, BytesAtMost};
use crate::mem::Mem64;
use crate::reg::{Reg16, Reg32, Reg64};
use vstd::prelude::*;

verus! {

/// The REX byte with the given flag bits.
pub open spec fn rex_byte(w: bool, r: bool, x: bool, b: bool) -> u8 {
    Rex { w, r, x, b }.spec_byte()
}

/// The ModR/M byte with the given fields.
pub open spec fn modrm_byte(mode: u8, reg: u8, rm: u8) -> u8 {
    ModRM { mode, reg, rm }.spec_byte()
}

/// The ModR/M, SIB and displacement bytes addressing `mem`, with `reg` in
/// the ModR/M reg field.
pub open spec fn mem_operand_bytes(reg: u8, mem: Mem64) -> Seq<u8> {
    seq![modrm_byte(mem.spec_mode(), reg, mem.spec_rm())] + (match mem.spec_sib() {
        Some(s) => seq![s],
        None => seq![],
    }) + mem.spec_disp()
}

/// `mov`: between registers, register to memory, or immediate to register.
#[derive(Debug, Clone, Copy, PartialEq, Eq, Structural)]
pub struct Mov<Dst, Src>(pub Dst, pub Src);

impl<Dst, Src> Mov<Dst, Src> {
    pub fn new(dst: Dst, src: Src) -> (r: Self)
        ensures
            r == Mov(dst, src),
    {
        Mov(dst, src)
    }
}

impl Mov<Mem64, Reg64> {
    /// `mov m64, r64`: REX.W, opcode `0x89`, then the memory operand.
    pub fn bytecode(&self) -> (r: BytesAtMost<15>)
        requires
            self.0.wf(),
        ensures
            r@ == seq![
                rex_byte(true, self.1.spec_extended(), self.0.spec_rex_x(), self.0.spec_rex_b()),
                0x89u8,
            ] + mem_operand_bytes(self.1.spec_code(), self.0),
            r.wf(),
    {
        let Mov(dst, src) = *self;
        let mut code = ByteCode::new();
        let mut rex = Rex::new();
        rex.set_w(true);
        rex.set_r(src.rex_r_bit());
        rex.set_x(dst.rex_x_bit());
        rex.set_b(dst.rex_b_bit());
        code.rex = Some(rex);
        code.opcode = BytesAtMost::from_u8(0x89);
        let mut mod_rm = ModRM::new();
        mod_rm.set_mode(dst.mode_bits());
        mod_rm.set_reg(src.reg_bits());
        mod_rm.set_rm(dst.rm_bits());
        code.mod_rm = Some(mod_rm);
        code.sib = dst.sib_byte();
        code.addr_disp = dst.disp_bytes();
        let r = code.to_bytes();
        assert(r@ =~= seq![
            rex_byte(true, self.1.spec_extended(), self.0.spec_rex_x(), self.0.spec_rex_b()),
            0x89u8,
        ] + mem_operand_bytes(self.1.spec_code(), self.0));
        r
    }
}

impl Mov<Reg64, Reg64> {
    /// `mov r64, r64`: REX.W, opcode `0x89`, ModR/M with mode 3.
    pub fn bytecode(&self) -> (r: BytesAtMost<15>)
        ensures
            r@ == seq![
                rex_byte(true, self.1.spec_extended(), false, self.0.spec_extended()),
                0x89u8,
                modrm_byte(3, self.1.spec_code(), self.0.spec_code()),
            ],
            r.wf(),
    {
        let Mov(dst, src) = *self;
        let mut code = ByteCode::new();
        let mut rex = Rex::new();
        rex.set_w(true);
        rex.set_r(src.rex_r_bit());
        rex.set_x(false);
        rex.set_b(dst.rex_b_bit());
        code.rex = Some(rex);
        code.opcode = BytesAtMost::from_u8(0x89);
        let mut mod_rm = ModRM::new();
        mod_rm.set_mode(dst.mode_bits());
        mod_rm.set_reg(src.reg_bits());
        mod_rm.set_rm(dst.rm_bits());
        code.mod_rm = Some(mod_rm);
        let r = code.to_bytes();
        assert(r@ =~= seq![
            rex_byte(true, self.1.spec_extended(), false, self.0.spec_extended()),
            0x89u8,
            modrm_byte(3, self.1.spec_code(), self.0.spec_code()),
        ]);
        r
    }
}

impl Mov<Reg32, Reg32> {
    /// `mov r32, r32`: opcode `0x89`; REX only when a register is extended.
    pub fn bytecode(&self) -> (r: BytesAtMost<15>)
        ensures
            r@ == (if self.0.spec_extended() || self.1.spec_extended() {
                seq![rex_byte(false, self.1.spec_extended(), false, self.0.spec_extended())]
            } else {
                Seq::<u8>::empty()
            }) + seq![0x89u8, modrm_byte(3, self.1.spec_code(), self.0.spec_code())],
            r.wf(),
    {
        let Mov(dst, src) = *self;
        let mut code = ByteCode::new();
        if src.is_extended() || dst.is_extended() {
            let mut rex = Rex::new();
            rex.set_r(src.is_extended());
            rex.set_b(dst.is_extended());
            code.rex = Some(rex);
        }
        code.opcode = BytesAtMost::from_u8(0x89);
        let mut mod_rm = ModRM::new();
        mod_rm.set_mode(3);
        mod_rm.set_reg(src.register_code());
        mod_rm.set_rm(dst.register_code());
        code.mod_rm = Some(mod_rm);
        let r = code.to_bytes();
        assert(r@ =~= (if self.0.spec_extended() || self.1.spec_extended() {
            seq![rex_byte(false, self.1.spec_extended(), false, self.0.spec_extended())]
        } else {
            Seq::<u8>::empty()
        }) + seq![0x89u8, modrm_byte(3, self.1.spec_code(), self.0.spec_code())]);
        r
    }
}

impl Mov<Reg16, Reg16> {
    /// `mov r16, r16`: prefix `0x66`, opcode `0x89`; REX when extended.
    pub fn bytecode(&self) -> (r: BytesAtMost<15>)
        ensures
            r@ == seq![0x66u8] + (if self.0.spec_extended() || self.1.spec_extended() {
                seq![rex_byte(false, self.1.spec_extended(), false, self.0.spec_extended())]
            } else {
                Seq::<u8>::empty()
            }) + seq![0x89u8, modrm_byte(3, self.1.spec_code(), self.0.spec_code())],
            r.wf(),
    {
        let Mov(dst, src) = *self;
        let mut code = ByteCode::new();
        code.prefix = Some(0x66);
        if src.is_extended() || dst.is_extended() {
            let mut rex = Rex::new();
            rex.set_r(src.is_extended());
            rex.set_b(dst.is_extended());
            code.rex = Some(rex);
        }
        code.opcode = BytesAtMost::from_u8(0x89);
        let mut mod_rm = ModRM::new();
        mod_rm.set_mode(3);
        mod_rm.set_reg(src.register_code());
        mod_rm.set_rm(dst.register_code());
        code.mod_rm = Some(mod_rm);
        let r = code.to_bytes();
        assert(r@ =~= seq![0x66u8] + (if self.0.spec_extended() || self.1.spec_extended() {
            seq![rex_byte(false, self.1.spec_extended(), false, self.0.spec_extended())]
        } else {
            Seq::<u8>::empty()
        }) + seq![0x89u8, modrm_byte(3, self.1.spec_code(), self.0.spec_code())]);
        r
    }
}

impl Mov<Reg16, u16> {
    /// `mov r16, imm16`: prefix `0x66`, opcode `0xB8 + rd`, 2-byte immediate.
    pub fn bytecode(&self) -> (r: BytesAtMost<15>)
        ensures
            r@ == seq![0x66u8] + (if self.0.spec_extended() {
                seq![rex_byte(false, false, false, true)]
            } else {
                Seq::<u8>::empty()
            }) + seq![(0xB8 + self.0.spec_code()) as u8] + le16(self.1),
            r.wf(),
    {
        let Mov(dst, imm) = *self;
        let mut code = ByteCode::new();
        code.prefix = Some(0x66);
        if dst.is_extended() {
            let mut rex = Rex::new();
            rex.set_b(true);
            code.rex = Some(rex);
        }
        code.opcode = BytesAtMost::from_u8(0xB8 + dst.register_code());
        code.imm = BytesAtMost::from_u16(imm);
        let r = code.to_bytes();
        assert(r@ =~= seq![0x66u8] + (if self.0.spec_extended() {
            seq![rex_byte(false, false, false, true)]
        } else {
            Seq::<u8>::empty()
        }) + seq![(0xB8 + self.0.spec_code()) as u8] + le16(self.1));
        r
    }
}

impl Mov<Reg32, u32> {
    /// `mov r32, imm32`: opcode `0xB8 + rd`, 4-byte immediate.
    pub fn bytecode(&self) -> (r: BytesAtMost<15>)
        ensures
            r@ == (if self.0.spec_extended() {
                seq![rex_byte(false, false, false, true)]
            } else {
                Seq::<u8>::empty()
            }) + seq![(0xB8 + self.0.spec_code()) as u8] + le32(self.1),
            r.wf(),
    {
        let Mov(dst, imm) = *self;
        let mut code = ByteCode::new();
        if dst.is_extended() {
            let mut rex = Rex::new();
            rex.set_b(true);
            code.rex = Some(rex);
        }
        code.opcode = BytesAtMost::from_u8(0xB8 + dst.register_code());
        code.imm = BytesAtMost::from_u32(imm);
        let r = code.to_bytes();
        assert(r@ =~= (if self.0.spec_extended() {
            seq![rex_byte(false, false, false, true)]
        } else {
            Seq::<u8>::empty()
        }) + seq![(0xB8 + self.0.spec_code()) as u8] + le32(self.1));
        r
    }

    /// The offset of the immediate within the encoded instruction: the
    /// bytes before it are the optional REX and the opcode.
    pub fn offset_to_imm_bytes(&self) -> (r: u8)
        ensures
            r == self.bytecode_len() - 4,
    {
        let Mov(dst, _) = *self;
        if dst.is_extended() {
            2
        } else {
            1
        }
    }

    /// The length of the encoded instruction.
    pub open spec fn bytecode_len(&self) -> int {
        (if self.0.spec_extended() {
            1int
        } else {
            0int
        }) + 1 + 4
    }
}

impl Mov<Reg64, u64> {
    /// `mov r64, imm64`: REX.W, opcode `0xB8 + rd`, 8-byte immediate.
    pub fn bytecode(&self) -> (r: BytesAtMost<15>)
        ensures
            r@ == seq![
                rex_byte(true, false, false, self.0.spec_extended()),
                (0xB8 + self.0.spec_code()) as u8,
            ] + le64(self.1),
            r.wf(),
    {
        let Mov(dst, imm) = *self;
        let mut code = ByteCode::new();
        let mut rex = Rex::new();
        rex.set_w(true);
        rex.set_b(dst.rex_b_bit());
        code.rex = Some(rex);
        code.opcode = BytesAtMost::from_u8(0xB8 + dst.register_code());
        code.imm = BytesAtMost::from_u64(imm);
        let r = code.to_bytes();
        assert(r@ =~= seq![
            rex_byte(true, false, false, self.0.spec_extended()),
            (0xB8 + self.0.spec_code()) as u8,
        ] + le64(self.1));
        r
    }

    /// The offset of the immediate within the encoded instruction: REX and
    /// the opcode byte come before it.
    pub fn offset_to_imm_bytes(&self) -> (r: u8)
        ensures
            r == 2,
    {
        2
    }
}

/// `lea r64, m64`: REX.W, opcode `0x8D`, then the memory operand.
#[derive(Debug, Clone, Copy, PartialEq, Eq, Structural)]
pub struct Lea<Dst, Src>(pub Dst, pub Src);

impl<Dst, Src> Lea<Dst, Src> {
    pub fn new(dst: Dst, src: Src) -> (r: Self)
        ensures
            r == Lea(dst, src),
    {
        Lea(dst, src)
    }
}

impl Lea<Reg64, Mem64> {
    pub fn bytecode(&self) -> (r: BytesAtMost<15>)
        requires
            self.1.wf(),
        ensures
            r@ == seq![
                rex_byte(true, self.0.spec_extended(), self.1.spec_rex_x(), self.1.spec_rex_b()),
                0x8Du8,
            ] + mem_operand_bytes(self.0.spec_code(), self.1),
            r.wf(),
    {
        let Lea(dst, src) = *self;
        let mut code = ByteCode::new();
        let mut rex = Rex::new();
        rex.set_w(true);
        rex.set_r(dst.rex_r_bit());
        rex.set_x(src.rex_x_bit());
        rex.set_b(src.rex_b_bit());
        code.rex = Some(rex);
        code.opcode = BytesAtMost::from_u8(0x8D);
        let mut mod_rm = ModRM::new();
        mod_rm.set_mode(src.mode_bits());
        mod_rm.set_reg(dst.reg_bits());
        mod_rm.set_rm(src.rm_bits());
        code.mod_rm = Some(mod_rm);
        code.sib = src.sib_byte();
        code.addr_disp = src.disp_bytes();
        let r = code.to_bytes();
        assert(r@ =~= seq![
            rex_byte(true, self.0.spec_extended(), self.1.spec_rex_x(), self.1.spec_rex_b()),
            0x8Du8,
        ] + mem_operand_bytes(self.0.spec_code(), self.1));
        r
    }
}

/// `push`: a register or an immediate.
#[derive(Debug, Clone, Copy, PartialEq, Eq, Structural)]
pub struct Push<T>(pub T);

impl<T> Push<T> {
    pub fn new(operand: T) -> (r: Self)
        ensures
            r == Push(operand),
    {
        Push(operand)
    }
}

impl Push<u8> {
    /// `push imm8`: opcode `0x6A`, 1-byte immediate.
    pub fn bytecode(&self) -> (r: BytesAtMost<15>)
        ensures
            r@ == seq![0x6Au8, self.0],
            r.wf(),
    {
        let Push(imm) = *self;
        let mut code = ByteCode::new();
        code.opcode = BytesAtMost::from_u8(0x6A);
        code.imm = BytesAtMost::from_u8(imm);
        let r = code.to_bytes();
        assert(r@ =~= seq![0x6Au8, self.0]);
        r
    }
}

impl Push<u16> {
    /// `push imm16`: prefix `0x66`, opcode `0x68`, 2-byte immediate.
    pub fn bytecode(&self) -> (r: BytesAtMost<15>)
        ensures
            r@ == seq![0x66u8, 0x68u8] + le16(self.0),
            r.wf(),
    {
        let Push(imm) = *self;
        let mut code = ByteCode::new();
        code.prefix = Some(0x66);
        code.opcode = BytesAtMost::from_u8(0x68);
        code.imm = BytesAtMost::from_u16(imm);
        let r = code.to_bytes();
        assert(r@ =~= seq![0x66u8, 0x68u8] + le16(self.0));
        r
    }
}

impl Push<u32> {
    /// `push imm32`: opcode `0x68`, 4-byte immediate.
    pub fn bytecode(&self) -> (r: BytesAtMost<15>)
        ensures
            r@ == seq![0x68u8] + le32(self.0),
            r.wf(),
    {
        let Push(imm) = *self;
        let mut code = ByteCode::new();
        code.opcode = BytesAtMost::from_u8(0x68);
        code.imm = BytesAtMost::from_u32(imm);
        let r = code.to_bytes();
        assert(r@ =~= seq![0x68u8] + le32(self.0));
        r
    }
}

impl Push<Reg16> {
    /// `push r16`: prefix `0x66`, opcode `0x50 + rd`; REX.B when extended.
    ///
    /// This pushes 16-bit data and so breaks 64-bit stack alignment.
    pub fn bytecode(&self) -> (r: BytesAtMost<15>)
        ensures
            r@ == seq![0x66u8] + (if self.0.spec_extended() {
                seq![rex_byte(false, false, false, true)]
            } else {
                Seq::<u8>::empty()
            }) + seq![(0x50 + self.0.spec_code()) as u8],
            r.wf(),
    {
        let Push(reg) = *self;
        let mut code = ByteCode::new();
        code.prefix = Some(0x66);
        if reg.is_extended() {
            let mut rex = Rex::new();
            rex.set_b(true);
            code.rex = Some(rex);
        }
        code.opcode = BytesAtMost::from_u8(0x50 + reg.register_code());
        let r = code.to_bytes();
        assert(r@ =~= seq![0x66u8] + (if self.0.spec_extended() {
            seq![rex_byte(false, false, false, true)]
        } else {
            Seq::<u8>::empty()
        }) + seq![(0x50 + self.0.spec_code()) as u8]);
        r
    }
}

impl Push<Reg64> {
    /// `push r64`: opcode `0x50 + rd`; REX.B when extended.
    pub fn bytecode(&self) -> (r: BytesAtMost<15>)
        ensures
            r@ == (if self.0.spec_extended() {
                seq![rex_byte(false, false, false, true)]
            } else {
                Seq::<u8>::empty()
            }) + seq![(0x50 + self.0.spec_code()) as u8],
            r.wf(),
    {
        let Push(reg) = *self;
        let mut code = ByteCode::new();
        if reg.is_extended() {
            let mut rex = Rex::new();
            rex.set_b(true);
            code.rex = Some(rex);
        }
        code.opcode = BytesAtMost::from_u8(0x50 + reg.register_code());
        let r = code.to_bytes();
        assert(r@ =~= (if self.0.spec_extended() {
            seq![rex_byte(false, false, false, true)]
        } else {
            Seq::<u8>::empty()
        }) + seq![(0x50 + self.0.spec_code()) as u8]);
        r
    }
}

/// `pop`: a register.
#[derive(Debug, Clone, Copy, PartialEq, Eq, Structural)]
pub struct Pop<T>(pub T);

impl<T> Pop<T> {
    pub fn new(operand: T) -> (r: Self)
        ensures
            r == Pop(operand),
    {
        Pop(operand)
    }
}

impl Pop<Reg16> {
    /// `pop r16`: prefix `0x66`, opcode `0x58 + rd`; REX.B when extended.
    pub fn bytecode(&self) -> (r: BytesAtMost<15>)
        ensures
            r@ == seq![0x66u8] + (if self.0.spec_extended() {
                seq![rex_byte(false, false, false, true)]
            } else {
                Seq::<u8>::empty()
            }) + seq![(0x58 + self.0.spec_code()) as u8],
            r.wf(),
    {
        let Pop(reg) = *self;
        let mut code = ByteCode::new();
        code.prefix = Some(0x66);
        if reg.is_extended() {
            let mut rex = Rex::new();
            rex.set_b(true);
            code.rex = Some(rex);
        }
        code.opcode = BytesAtMost::from_u8(0x58 + reg.register_code());
        let r = code.to_bytes();
        assert(r@ =~= seq![0x66u8] + (if self.0.spec_extended() {
            seq![rex_byte(false, false, false, true)]
        } else {
            Seq::<u8>::empty()
        }) + seq![(0x58 + self.0.spec_code()) as u8]);
        r
    }
}

impl Pop<Reg64> {
    /// `pop r64`: opcode `0x58 + rd`; REX.B when extended.
    pub fn bytecode(&self) -> (r: BytesAtMost<15>)
        ensures
            r@ == (if self.0.spec_extended() {
                seq![rex_byte(false, false, false, true)]
            } else {
                Seq::<u8>::empty()
            }) + seq![(0x58 + self.0.spec_code()) as u8],
            r.wf(),
    {
        let Pop(reg) = *self;
        let mut code = ByteCode::new();
        if reg.is_extended() {
            let mut rex = Rex::new();
            rex.set_b(true);
            code.rex = Some(rex);
        }
        code.opcode = BytesAtMost::from_u8(0x58 + reg.register_code());
        let r = code.to_bytes();
        assert(r@ =~= (if self.0.spec_extended() {
            seq![rex_byte(false, false, false, true)]
        } else {
            Seq::<u8>::empty()
        }) + seq![(0x58 + self.0.spec_code()) as u8]);
        r
    }
}

/// `ret`: opcode `0xC3`.
#[derive(Debug, Clone, Copy, PartialEq, Eq, Structural)]
pub struct Ret();

impl Ret {
    pub fn new() -> (r: Ret)
        ensures
            r == Ret(),
    {
        Ret()
    }

    pub fn bytecode(&self) -> (r: BytesAtMost<15>)
        ensures
            r@ == seq![0xC3u8],
            r.wf(),
    {
        let mut code = ByteCode::new();
        code.opcode = BytesAtMost::from_u8(0xC3);
        let r = code.to_bytes();
        assert(r@ =~= seq![0xC3u8]);
        r
    }
}

/// `syscall`: opcode `0x0F 0x05`.
#[derive(Debug, Clone, Copy, PartialEq, Eq, Structural)]
pub struct Syscall();

impl Syscall {
    pub fn new() -> (r: Syscall)
        ensures
            r == Syscall(),
    {
        Syscall()
    }

    pub fn bytecode(&self) -> (r: BytesAtMost<15>)
        ensures
            r@ == seq![0x0Fu8, 0x05u8],
            r.wf(),
    {
        let mut code = ByteCode::new();
        let mut opcode: Vec<u8> = Vec::new();
        opcode.push(0x0F);
        opcode.push(0x05);
        code.opcode = BytesAtMost::from_slice(opcode.as_slice());
        let r = code.to_bytes();
        assert(r@ =~= seq![0x0Fu8, 0x05u8]);
        r
    }
}

} // verus!
