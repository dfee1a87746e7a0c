use emu_core::alu::{FlagSet, FlagSetBits, ALU};
use emu_core::i8080::{I8080ALUControl, I8080ALUFlag, I8080ALU};
use emu_core::i8080::I8080ALUControl::{
    Add, BitAnd, BitOr, BitXor, Decrease, Increase, Right, Subtract,
};
use emu_core::i8080::I8080ALUFlag::{AuxiliaryCarry, Carry, Parity, Sign, Zero};

/// A two-flag adder: bit 1 is the overflow flag, bit 2 the sign flag.
struct Adder {}

impl Adder {
    fn op(&self, sub: bool, a: u8, b: u8) -> (u8, FlagSetBits) {
        let (t, overflowed) = if sub { a.overflowing_sub(b) } else { a.overflowing_add(b) };
        let mut bits: u8 = 0;
        if overflowed {
            bits |= 1;
        }
        if t >= 0x80 {
            bits |= 2;
        }
        (t, FlagSetBits::from(bits))
    }
}

#[test]
fn test() {
    let adder = Adder {};
    assert_eq!(adder.op(false, 20, 50), (70, 0.into()));
    assert_eq!(adder.op(false, 120, 50), (170, 2.into()));
    assert_eq!(adder.op(false, 220, 50), (14, 1.into()));
    assert_eq!(adder.op(true, 20, 50), (226, 3.into()));
    assert_eq!(adder.op(true, 120, 50), (70, 0.into()));
    assert_eq!(adder.op(true, 220, 50), (170, 2.into()));
}

fn op(code: I8080ALUControl, a: u8, b: u8) -> (u8, u8) {
    let (r, f) = I8080ALU::new().op(code, a, b);
    (r, f.bits())
}

#[test]
fn add_wraps_and_reports_carry_and_sign() {
    let (r, f) = I8080ALU::new().op(Add, 220, 50);
    assert_eq!(r, 14);
    assert!(f.get_flag(I8080ALUFlag::Carry));
    assert!(!f.get_flag(I8080ALUFlag::Sign));
    assert_eq!(f.bits(), 0x01);
    let (r, f) = I8080ALU::new().op(Add, 120, 50);
    assert_eq!(r, 170);
    assert!(f.get_flag(I8080ALUFlag::Sign));
    assert!(!f.get_flag(I8080ALUFlag::Carry));
    // 170 = 0b1010_1010 has an even number of one bits
    assert_eq!(f.bits(), 0x80 | 0x04);
    assert_eq!(op(Add, 20, 50), (70, 0x00));
}

#[test]
fn subtract_wraps_and_reports_borrow_and_sign() {
    let (r, f) = I8080ALU::new().op(Subtract, 20, 50);
    assert_eq!(r, 226);
    assert!(f.get_flag(I8080ALUFlag::Carry));
    assert!(f.get_flag(I8080ALUFlag::Sign));
    assert_eq!(f.bits(), 0x80 | 0x10 | 0x04 | 0x01);
    assert_eq!(op(Subtract, 120, 50), (70, 0x10));
    assert_eq!(op(Subtract, 220, 50), (170, 0x80 | 0x10 | 0x04));
    assert_eq!(op(Subtract, 50, 50), (0, 0x40 | 0x10 | 0x04));
    assert_eq!(op(Subtract, 0x10, 0x01), (0x0f, 0x04));
}

#[test]
fn logic_operations() {
    assert_eq!(op(BitAnd, 0x0f, 0xf0), (0x00, 0x40 | 0x10 | 0x04));
    assert_eq!(op(BitAnd, 0x3f, 0x05), (0x05, 0x10 | 0x04));
    assert_eq!(op(BitAnd, 0x37, 0x05), (0x05, 0x04));
    assert_eq!(op(BitOr, 0x81, 0x02), (0x83, 0x80));
    assert_eq!(op(BitXor, 0xff, 0xff), (0x00, 0x40 | 0x04));
    assert_eq!(op(BitXor, 0x01, 0x00), (0x01, 0x00));
}

#[test]
fn increase_decrease_and_rotate() {
    assert_eq!(op(Increase, 0xff, 0), (0x00, 0x40 | 0x10 | 0x04 | 0x01));
    assert_eq!(op(Increase, 0x0e, 0), (0x0f, 0x04));
    assert_eq!(op(Decrease, 0x00, 0), (0xff, 0x80 | 0x04 | 0x01));
    assert_eq!(op(Decrease, 0x10, 0), (0x0f, 0x04));
    assert_eq!(op(Right, 0x01, 0), (0x80, 0x80 | 0x01));
    assert_eq!(op(Right, 0x02, 0), (0x01, 0x00));
}

#[test]
fn flag_set_operations() {
    let mut f = FlagSetBits::default();
    assert_eq!(f.bits(), 0);
    f.set(Sign);
    f.set(Carry);
    assert_eq!(f.bits(), 0x81);
    f.reset(Sign);
    assert_eq!(f.bits(), 0x01);
    f.change(Zero, true);
    assert!(f.get_flag(Zero));
    assert!(!f.get_flag(Parity));
    let on = <FlagSetBits as FlagSet<I8080ALUFlag>>::all_on();
    assert!(on.get_flag(AuxiliaryCarry));
    let off = <FlagSetBits as FlagSet<I8080ALUFlag>>::all_off();
    assert_eq!(off.bits(), 0);
    let s = FlagSetBits::from_slice(&[Carry, Sign, Carry]);
    assert_eq!(s.bits(), 0x81);
    assert_eq!(u8::from(s), 0x81);
    let none: &[I8080ALUFlag] = &[];
    let empty = FlagSetBits::from_slice(none);
    assert_eq!(empty.bits(), 0);
}

#[test]
fn merge_masked_takes_masked_bits_only() {
    let existing = FlagSetBits::from(0b1000_0000);
    let computed = FlagSetBits::from(0b0000_0001);
    let mask = FlagSetBits::from_slice(&[I8080ALUFlag::Carry]);
    let merged = existing.merge_masked(mask, computed);
    assert_eq!(merged.bits(), 0b1000_0001);
    let cleared = FlagSetBits::from(0xff).merge_masked(FlagSetBits::from(0x0f), FlagSetBits::from(0x00));
    assert_eq!(cleared.bits(), 0xf0);
}
