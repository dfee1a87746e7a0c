use emu_core::cpu::I8080;
use emu_core::i8080::{I8080RegisterCode16Bit, I8080RegisterCode8Bit};
use emu_core::register::{
    MaskedRegisterLoader, Register, Register16In8Loader, Register16In8Reader, Register16Loader,
    Register16Reader, RegisterSet,
};
use emu_core::i8080::I8080RegisterCode16Bit::{BC, DE, HL, PSW};
use emu_core::i8080::I8080RegisterCode8Bit::{A, B, C, D, E, H, L};

#[test]
fn register_modifier() {
    let mut reg: u16 = 0x1234;
    assert_eq!(reg.read(), 0x1234);
    let mut reg_mod = Register16In8Loader::new(&mut reg, true);
    reg_mod.load(0x56);
    assert_eq!(reg.read(), 0x1256);
    let mut reg_mod = Register16In8Loader::new(&mut reg, false);
    reg_mod.load(0x78);
    assert_eq!(reg.read(), 0x7856);
}

#[test]
fn register_set() {
    let mut regs = I8080::default();
    regs.load_of(PSW, 0x1234);
    assert_eq!(regs.read_of(PSW), 0x1234);
    regs.load_of(A, 0x56);
    assert_eq!(regs.read_of(PSW), 0x5634);
    regs.load_of(HL, 0x9abc);
    assert_eq!(regs.read_of(H), 0x9a);
    assert_eq!(regs.read_of(L), 0xbc);
}

#[test]
fn bitwise_loader() {
    let mut reg: u16 = 0;
    let mut loader = MaskedRegisterLoader::new(Register16Loader::new(&mut reg), 0xf0f0);
    loader.load(0x1234);
    assert_eq!(loader.read(), 0x1030);
}

#[test]
fn masked_loader_keeps_unmasked_bits() {
    let mut reg: u16 = 0xabcd;
    let mut loader = MaskedRegisterLoader::new(Register16Loader::new(&mut reg), 0x0ff0);
    loader.load(0x1234);
    assert_eq!(reg, 0xa23d);
}

#[test]
fn byte_halves_do_not_disturb_each_other() {
    for &(v, x) in &[(0x1234u16, 0xffu8), (0xffffu16, 0x00u8), (0x0000u16, 0xa5u8), (0x80_01u16, 0x7eu8)] {
        let mut cell = v;
        Register16In8Loader::new(&mut cell, true).load(x);
        assert_eq!(Register16In8Reader::new(&cell, false).read(), (v >> 8) as u8);
        assert_eq!(Register16In8Reader::new(&cell, true).read(), x);
        let mut cell = v;
        Register16In8Loader::new(&mut cell, false).load(x);
        assert_eq!(Register16In8Reader::new(&cell, true).read(), (v & 0xff) as u8);
        assert_eq!(Register16In8Reader::new(&cell, false).read(), x);
        assert_eq!(Register16Reader::new(&cell).read(), ((x as u16) << 8) | (v & 0xff));
    }
}

#[test]
fn byte_loader_reads_its_half() {
    let mut cell: u16 = 0xbeef;
    let high = Register16In8Loader::new(&mut cell, false);
    assert_eq!(high.read(), 0xbe);
    let low = Register16In8Loader::new(&mut cell, true);
    assert_eq!(low.read(), 0xef);
    let mut whole = Register16Loader::new(&mut cell);
    whole.load(0x0102);
    assert_eq!(whole.read(), 0x0102);
    assert_eq!(cell, 0x0102);
}

#[test]
fn register_pairs_alias_their_halves() {
    let mut cpu = I8080::new();
    cpu.load_of(B, 0x12);
    cpu.load_of(C, 0x34);
    assert_eq!(cpu.read_of(BC), 0x1234);
    cpu.load_of(DE, 0xfedc);
    assert_eq!(cpu.read_of(D), 0xfe);
    assert_eq!(cpu.read_of(E), 0xdc);
    cpu.load_of(E, 0x00);
    assert_eq!(cpu.read_of(DE), 0xfe00);
    assert_eq!(cpu.read_of(BC), 0x1234);
}

#[test]
fn register_codes_name_their_half() {
    assert!(!A.is_low() && !B.is_low() && !D.is_low() && !H.is_low());
    assert!(C.is_low() && E.is_low() && L.is_low());
}
