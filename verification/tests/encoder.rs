use at_asm::instruction::{Lea, Mov, Pop, Push, Ret, Syscall};
use at_asm::mem::Mem64;
use at_asm::reg::Reg16::{AX, DI, R10W, R15W, R9W, SP};
use at_asm::reg::Reg16;
use at_asm::reg::Reg32::{EAX, EDI, ESP, R15D, R8D};
use at_asm::reg::Reg32;
use at_asm::reg::Reg64::{R10, R13, R14, R15, R8, R9, RAX, RBP, RDI, RSP};
use at_asm::reg::Reg64;

#[test]
fn test() {
    let cases = [
        (Lea::new(RAX, Mem64::reg(RDI)), vec![0x48, 0x8D, 0x07]),
        (Lea::new(RAX, Mem64::reg_offset(RDI, 42)), vec![0x48, 0x8D, 0x47, 0x2A]),
        (Lea::new(RSP, Mem64::reg(RSP)), vec![0x48, 0x8D, 0x24, 0x24]),
        (Lea::new(RAX, Mem64::reg(RSP)), vec![0x48, 0x8D, 0x04, 0x24]),
        (Lea::new(RDI, Mem64::rip_offset(42)), vec![0x48, 0x8D, 0x3D, 0x2A, 0x00, 0x00, 0x00]),
        (Lea::new(RDI, Mem64::sib(Some(RAX), 0, RDI, 1)), vec![0x48, 0x8D, 0x3c, 0x78]),
        (
            Lea::new(RDI, Mem64::sib(None, 0, RDI, 1)),
            vec![0x48, 0x8D, 0x3c, 0x7d, 0x00, 0x00, 0x00, 0x00],
        ),
    ];
    for (origin, expected) in cases {
        assert_eq!(origin.bytecode().bytes(), expected);
    }
}

#[test]
fn test_mov_mem64_reg64() {
    let cases = [
        (Mov(Mem64::reg(RDI), RAX), vec![0x48, 0x89, 0x07]),
        (Mov(Mem64::reg_offset(RDI, 42), RAX), vec![0x48, 0x89, 0x47, 0x2A]),
        (Mov(Mem64::rip_offset(42), RAX), vec![0x48, 0x89, 0x05, 0x2A, 0x00, 0x00, 0x00]),
        (Mov(Mem64::sib(Some(RBP), 42, RAX, 3), R13), vec![0x4C, 0x89, 0x6C, 0xC5, 0x2A]),
    ];
    for (origin, expected) in cases {
        assert_eq!(origin.bytecode().bytes(), expected);
    }
}

#[test]
fn mov_test_mov_mem64_reg64() {
    let cases = [
        (Mov(Mem64::reg(RDI), RAX), vec![0x48, 0x89, 0x07]),
        (Mov(Mem64::reg_offset(RDI, 42), RAX), vec![0x48, 0x89, 0x47, 0x2A]),
        (Mov(Mem64::rip_offset(42), RAX), vec![0x48, 0x89, 0x05, 0x2A, 0x00, 0x00, 0x00]),
        (Mov(Mem64::sib(Some(RBP), 42, RAX, 3), R13), vec![0x4C, 0x89, 0x6C, 0xC5, 0x2A]),
    ];
    for (origin, expected) in cases {
        assert_eq!(origin.bytecode().bytes(), expected);
    }
}

#[test]
fn test_mov_reg16_reg16() {
    let cases = [
        (Mov::new(AX, DI), vec![0x66, 0x89, 0xF8]),
        (Mov::new(R9W, SP), vec![0x66, 0x41, 0x89, 0xE1]),
        (Mov::new(R15W, R10W), vec![0x66, 0x45, 0x89, 0xD7]),
    ];
    for (origin, expected) in cases {
        assert_eq!(origin.bytecode().bytes(), expected);
    }
}

#[test]
fn test_mov_reg32_reg32() {
    let cases = [
        (Mov::new(EAX, ESP), vec![0x89, 0xe0]),
        (Mov::new(R15D, ESP), vec![0x41, 0x89, 0xE7]),
        (Mov::new(R15D, R8D), vec![0x45, 0x89, 0xC7]),
    ];
    for (origin, expected) in cases {
        assert_eq!(origin.bytecode().bytes(), expected);
    }
}

#[test]
fn test_mov_reg64_reg64() {
    let cases = [
        (Mov::new(RDI, RAX), vec![0x48, 0x89, 0xc7]),
        (Mov::new(R8, RAX), vec![0x49, 0x89, 0xc0]),
        (Mov::new(R8, R9), vec![0x4d, 0x89, 0xc8]),
    ];
    for (origin, expected) in cases {
        assert_eq!(origin.bytecode().bytes(), expected);
    }
}

#[test]
fn test_mov_reg16_imm16() {
    let cases = [
        (Mov::new(AX, 42), vec![0x66, 0xB8, 0x2A, 0x00]),
        (Mov::new(R9W, 11), vec![0x66, 0x41, 0xB9, 0x0B, 0x00]),
    ];
    for (origin, expected) in cases {
        assert_eq!(origin.bytecode().bytes(), expected);
    }
}

#[test]
fn test_mov_reg32_imm32() {
    let cases = [
        (Mov::new(EDI, 420), vec![0xBF, 0xA4, 0x01, 0x00, 0x00]),
        (Mov::new(R15D, 109), vec![0x41, 0xBF, 0x6D, 0x00, 0x00, 0x00]),
    ];
    for (origin, expected) in cases {
        assert_eq!(origin.bytecode().bytes(), expected);
    }
}

#[test]
fn test_mov_reg64_imm64() {
    let cases = [
        (Mov::new(RSP, 42), vec![0x48, 0xBC, 0x2A, 0x00, 0x00, 0x00, 0x00, 0x00, 0x00, 0x00]),
        (Mov::new(R14, 42), vec![0x49, 0xBE, 0x2A, 0x00, 0x00, 0x00, 0x00, 0x00, 0x00, 0x00]),
    ];
    for (origin, expected) in cases {
        assert_eq!(origin.bytecode().bytes(), expected);
    }
}

#[test]
fn test_pop_reg16() {
    let cases = [(Pop::new(DI), vec![0x66, 0x5f]), (Pop::new(R15W), vec![0x66, 0x41, 0x5f])];
    for (origin, expected) in cases {
        assert_eq!(origin.bytecode().bytes(), expected)
    }
}

#[test]
fn test_pop_reg64() {
    let cases = [(Pop::new(RDI), vec![0x5f]), (Pop::new(R15), vec![0x41, 0x5f])];
    for (origin, expected) in cases {
        assert_eq!(origin.bytecode().bytes(), expected)
    }
}

#[test]
fn test_push_imm8() {
    let cases = [(Push::new(42_u8), vec![0x6A, 0x2A])];
    for (origin, expected) in cases {
        assert_eq!(origin.bytecode().bytes(), expected);
    }
}

#[test]
fn test_push_imm16() {
    let cases = [(Push::new(420_u16), vec![0x66, 0x68, 0xA4, 0x01])];
    for (origin, expected) in cases {
        assert_eq!(origin.bytecode().bytes(), expected);
    }
}

#[test]
fn test_push_imm32() {
    let cases = [(Push::new(420_u32), vec![0x68, 0xA4, 0x01, 0x00, 0x00])];
    for (origin, expected) in cases {
        assert_eq!(origin.bytecode().bytes(), expected);
    }
}

#[test]
fn test_push_reg16() {
    let cases = [(Push::new(AX), vec![0x66, 0x50]), (Push::new(R10W), vec![0x66, 0x41, 0x52])];
    for (origin, expected) in cases {
        assert_eq!(origin.bytecode().bytes(), expected);
    }
}

#[test]
fn test_push_reg64() {
    let cases = [(Push::new(RAX), vec![0x50]), (Push::new(R10), vec![0x41, 0x52])];
    for (origin, expected) in cases {
        assert_eq!(origin.bytecode().bytes(), expected);
    }
}

#[test]
fn test_ret_and_syscall() {
    assert_eq!(Ret::new().bytecode().bytes(), vec![0xC3]);
    assert_eq!(Syscall::new().bytecode().bytes(), vec![0x0F, 0x05]);
}

#[test]
fn test_mov_rbp_base_disp8() {
    assert_eq!(Mov(Mem64::reg(RBP), RAX).bytecode().bytes(), vec![0x48, 0x89, 0x45, 0x00]);
    assert_eq!(Mov(Mem64::reg(R13), RAX).bytecode().bytes(), vec![0x49, 0x89, 0x45, 0x00]);
    assert_eq!(Mov(Mem64::reg(RSP), RAX).bytecode().bytes(), vec![0x48, 0x89, 0x04, 0x24]);
    assert_eq!(
        Mov(Mem64::rip_offset(0x2A), RAX).bytecode().bytes(),
        vec![0x48, 0x89, 0x05, 0x2A, 0x00, 0x00, 0x00]
    );
}
