//! The parts of one encoded instruction and their serialization.

use crate::bytes::BytesAtMost;
use vstd::prelude::*;

verus! {

/// The REX prefix byte: `0100WRXB`.
#[derive(Debug, Clone, Copy, PartialEq, Eq, Structural)]
pub struct Rex {
    pub w: bool,
    pub r: bool,
    pub x: bool,
    pub b: bool,
}

impl Rex {
    /// The REX byte value: `0x40` plus the four flag bits.
    pub open spec fn spec_byte(self) -> u8 {
        (0x40 + if self.w {
            8int
        } else {
            0int
        } + if self.r {
            4int
        } else {
            0int
        } + if self.x {
            2int
        } else {
            0int
        } + if self.b {
            1int
        } else {
            0int
        }) as u8
    }

    /// A REX prefix with all flag bits clear.
    pub fn new() -> (r: Self)
        ensures
            r == (Rex { w: false, r: false, x: false, b: false }),
    {
        Rex { w: false, r: false, x: false, b: false }
    }

    /// The REX prefix whose byte value is `raw`.
    pub fn from_raw(raw: u8) -> (r: Self)
        requires
            0x40 <= raw < 0x50,
        ensures
            r.spec_byte() == raw,
            r.w == ((raw as int / 8) % 2 == 1),
            r.r == ((raw as int / 4) % 2 == 1),
            r.x == ((raw as int / 2) % 2 == 1),
            r.b == (raw as int % 2 == 1),
    {
        let rex = Rex {
            w: (raw / 8) % 2 == 1,
            r: (raw / 4) % 2 == 1,
            x: (raw / 2) % 2 == 1,
            b: raw % 2 == 1,
        };
        assert(0x40 + ((raw / 8) % 2) * 8 + ((raw / 4) % 2) * 4 + ((raw / 2) % 2) * 2 + raw % 2
            == raw) by (bit_vector)
            requires
                0x40 <= raw < 0x50,
        ;
        rex
    }

    /// The encoded byte.
    pub fn byte(&self) -> (r: u8)
        ensures
            r == self.spec_byte(),
    {
        let mut n: u8 = 0x40;
        if self.w {
            n += 8;
        }
        if self.r {
            n += 4;
        }
        if self.x {
            n += 2;
        }
        if self.b {
            n += 1;
        }
        n
    }

    /// The W (64-bit operand size) bit.
    pub fn w(&self) -> (r: bool)
        ensures
            r == self.w,
    {
        self.w
    }

    pub fn set_w(&mut self, flag: bool)
        ensures
            *final(self) == (Rex { w: flag, ..*old(self) }),
    {
        self.w = flag;
    }

    /// The R (ModR/M.reg extension) bit.
    pub fn r(&self) -> (r: bool)
        ensures
            r == self.r,
    {
        self.r
    }

    pub fn set_r(&mut self, flag: bool)
        ensures
            *final(self) == (Rex { r: flag, ..*old(self) }),
    {
        self.r = flag;
    }

    /// The X (SIB.index extension) bit.
    pub fn x(&self) -> (r: bool)
        ensures
            r == self.x,
    {
        self.x
    }

    pub fn set_x(&mut self, flag: bool)
        ensures
            *final(self) == (Rex { x: flag, ..*old(self) }),
    {
        self.x = flag;
    }

    /// The B (ModR/M.r/m, SIB.base or opcode register extension) bit.
    pub fn b(&self) -> (r: bool)
        ensures
            r == self.b,
    {
        self.b
    }

    pub fn set_b(&mut self, flag: bool)
        ensures
            *final(self) == (Rex { b: flag, ..*old(self) }),
    {
        self.b = flag;
    }
}

/// The ModR/M byte: `mod(2) | reg(3) | rm(3)`.
#[derive(Debug, Clone, Copy, PartialEq, Eq, Structural)]
pub struct ModRM {
    pub mode: u8,
    pub reg: u8,
    pub rm: u8,
}

impl ModRM {
    /// Each field fits its bit width.
    pub open spec fn wf(self) -> bool {
        self.mode <= 3 && self.reg <= 7 && self.rm <= 7
    }

    /// The ModR/M byte value.
    pub open spec fn spec_byte(self) -> u8 {
        (self.mode as int * 64 + self.reg as int * 8 + self.rm as int) as u8
    }

    /// A ModR/M byte with all fields zero.
    pub fn new() -> (r: ModRM)
        ensures
            r == (ModRM { mode: 0u8, reg: 0u8, rm: 0u8 }),
            r.wf(),
    {
        ModRM { mode: 0, reg: 0, rm: 0 }
    }

    /// The ModR/M whose byte value is `raw`.
    pub fn from_raw(raw: u8) -> (r: Self)
        ensures
            r.wf(),
            r.spec_byte() == raw,
            r.mode == raw as int / 64,
            r.reg == (raw as int / 8) % 8,
            r.rm == raw as int % 8,
    {
        let m = ModRM { mode: raw / 64, reg: (raw / 8) % 8, rm: raw % 8 };
        assert((raw / 64) * 64 + ((raw / 8) % 8) * 8 + raw % 8 == raw) by (bit_vector);
        m
    }

    /// The encoded byte.
    pub fn byte(&self) -> (r: u8)
        requires
            self.wf(),
        ensures
            r == self.spec_byte(),
    {
        self.mode * 64 + self.reg * 8 + self.rm
    }

    /// The 2-bit mode field.
    pub fn mode(&self) -> (r: u8)
        ensures
            r == self.mode,
    {
        self.mode
    }

    pub fn set_mode(&mut self, mode: u8)
        requires
            mode <= 3,
        ensures
            *final(self) == (ModRM { mode, ..*old(self) }),
    {
        self.mode = mode;
    }

    /// The 3-bit reg field.
    pub fn reg(&self) -> (r: u8)
        ensures
            r == self.reg,
    {
        self.reg
    }

    pub fn set_reg(&mut self, reg: u8)
        requires
            reg <= 7,
        ensures
            *final(self) == (ModRM { reg, ..*old(self) }),
    {
        self.reg = reg;
    }

    /// The 3-bit r/m field.
    pub fn rm(&self) -> (r: u8)
        ensures
            r == self.rm,
    {
        self.rm
    }

    pub fn set_rm(&mut self, rm: u8)
        requires
            rm <= 7,
        ensures
            *final(self) == (ModRM { rm, ..*old(self) }),
    {
        self.rm = rm;
    }
}

/// The SIB byte: `scale(2) | index(3) | base(3)`.
#[derive(Debug, Clone, Copy, PartialEq, Eq, Structural)]
pub struct Sib {
    pub scale: u8,
    pub index: u8,
    pub base: u8,
}

impl Sib {
    /// Each field fits its bit width.
    pub open spec fn wf(self) -> bool {
        self.scale <= 3 && self.index <= 7 && self.base <= 7
    }

    /// The SIB byte value.
    pub open spec fn spec_byte(self) -> u8 {
        (self.scale as int * 64 + self.index as int * 8 + self.base as int) as u8
    }

    /// A SIB byte from its three fields.
    pub fn new(scale: u8, index: u8, base: u8) -> (r: Self)
        requires
            scale <= 3,
            index <= 7,
            base <= 7,
        ensures
            r == (Sib { scale, index, base }),
            r.wf(),
    {
        Sib { scale, index, base }
    }

    /// The SIB whose byte value is `raw`.
    pub fn from_raw(raw: u8) -> (r: Self)
        ensures
            r.wf(),
            r.spec_byte() == raw,
            r.scale == raw as int / 64,
            r.index == (raw as int / 8) % 8,
            r.base == raw as int % 8,
    {
        let s = Sib { scale: raw / 64, index: (raw / 8) % 8, base: raw % 8 };
        assert((raw / 64) * 64 + ((raw / 8) % 8) * 8 + raw % 8 == raw) by (bit_vector);
        s
    }

    /// The encoded byte.
    pub fn byte(&self) -> (r: u8)
        requires
            self.wf(),
        ensures
            r == self.spec_byte(),
    {
        self.scale * 64 + self.index * 8 + self.base
    }

    /// The 2-bit scale field.
    pub fn scale(&self) -> (r: u8)
        ensures
            r == self.scale,
    {
        self.scale
    }

    /// The 3-bit index field.
    pub fn index(&self) -> (r: u8)
        ensures
            r == self.index,
    {
        self.index
    }

    /// The 3-bit base field.
    pub fn base(&self) -> (r: u8)
        ensures
            r == self.base,
    {
        self.base
    }
}

/// One encoded instruction, kept as its parts.
///
/// Serialization order is fixed: prefix, REX, opcode, ModR/M, SIB,
/// displacement, immediate.
#[derive(Debug, Clone, PartialEq, Eq)]
pub struct ByteCode {
    pub prefix: Option<u8>,
    pub rex: Option<Rex>,
    /// 1 to 3 bytes.
    pub opcode: BytesAtMost<3>,
    pub mod_rm: Option<ModRM>,
    pub sib: Option<Sib>,
    /// 0 to 4 bytes.
    pub addr_disp: BytesAtMost<4>,
    /// 0 to 8 bytes; 8 only for `mov r64, imm64`.
    pub imm: BytesAtMost<8>,
}

impl ByteCode {
    /// The serialized length: the sum of the lengths of the present parts.
    pub open spec fn spec_len(self) -> int {
        (if self.prefix is Some {
            1int
        } else {
            0int
        }) + (if self.rex is Some {
            1int
        } else {
            0int
        }) + self.opcode@.len() + (if self.mod_rm is Some {
            1int
        } else {
            0int
        }) + (if self.sib is Some {
            1int
        } else {
            0int
        }) + self.addr_disp@.len() + self.imm@.len()
    }

    /// The parts fit their maxima and the whole fits in 15 bytes.
    pub open spec fn wf(self) -> bool {
        &&& self.opcode@.len() <= 3
        &&& self.addr_disp@.len() <= 4
        &&& self.imm@.len() <= 8
        &&& match self.mod_rm {
            Some(m) => m.wf(),
            None => true,
        }
        &&& match self.sib {
            Some(s) => s.wf(),
            None => true,
        }
        &&& self.spec_len() <= 15
    }

    /// The serialized bytes, in the fixed order.
    pub open spec fn spec_bytes(self) -> Seq<u8> {
        (match self.prefix {
            Some(p) => seq![p],
            None => seq![],
        }) + (match self.rex {
            Some(rex) => seq![rex.spec_byte()],
            None => seq![],
        }) + self.opcode@ + (match self.mod_rm {
            Some(m) => seq![m.spec_byte()],
            None => seq![],
        }) + (match self.sib {
            Some(s) => seq![s.spec_byte()],
            None => seq![],
        }) + self.addr_disp@ + self.imm@
    }

    /// An empty bytecode: a single zero opcode byte and nothing else.
    pub fn new() -> (r: Self)
        ensures
            r.prefix is None,
            r.rex is None,
            r.opcode@ == seq![0u8],
            r.mod_rm is None,
            r.sib is None,
            r.addr_disp@ == Seq::<u8>::empty(),
            r.imm@ == Seq::<u8>::empty(),
            r.wf(),
    {
        let r = ByteCode {
            prefix: None,
            rex: None,
            opcode: BytesAtMost::with_len(1),
            mod_rm: None,
            sib: None,
            addr_disp: BytesAtMost::with_len(0),
            imm: BytesAtMost::with_len(0),
        };
        assert(r.opcode@ =~= seq![0u8]);
        assert(r.addr_disp@ =~= Seq::<u8>::empty());
        assert(r.imm@ =~= Seq::<u8>::empty());
        r
    }

    /// Serializes the instruction; the result's length is exactly the sum
    /// of the lengths of the present parts, and at most 15.
    pub fn to_bytes(&self) -> (r: BytesAtMost<15>)
        requires
            self.wf(),
        ensures
            r@ == self.spec_bytes(),
            r@.len() == self.spec_len(),
            r@.len() <= 15,
    {
        let mut buf: Vec<u8> = Vec::new();
        if let Some(prefix) = self.prefix {
            buf.push(prefix);
        }
        if let Some(rex) = &self.rex {
            buf.push(rex.byte());
        }
        self.opcode.append_to(&mut buf);
        if let Some(mod_rm) = &self.mod_rm {
            buf.push(mod_rm.byte());
        }
        if let Some(sib) = &self.sib {
            buf.push(sib.byte());
        }
        self.addr_disp.append_to(&mut buf);
        self.imm.append_to(&mut buf);
        assert(buf@ =~= self.spec_bytes());
        BytesAtMost::from_slice(buf.as_slice())
    }
}

impl Default for ByteCode {
    /// The same value as `ByteCode::new`.
    fn default() -> (r: Self)
        ensures
            r.prefix is None,
            r.rex is None,
            r.opcode@ == seq![0u8],
            r.mod_rm is None,
            r.sib is None,
            r.addr_disp@ == Seq::<u8>::empty(),
            r.imm@ == Seq::<u8>::empty(),
            r.wf(),
    {
        ByteCode::new()
    }
}

} // verus!
