use emu_core::alu::FlagSetBits;
use emu_core::cpu::{CPUJump, CPUMemory, CPUProgramCounter, CPUStackPointer, I8080};
use emu_core::i8080::{I8080ALUControl, I8080ALUFlag};
use emu_core::memory::{Memory, Memory8Bit64KB};

fn counting_memory() -> I8080 {
    let mut cpu = I8080::default();
    for i in 0..256u16 {
        cpu.memory_store(i, i as u8);
    }
    cpu
}

#[test]
fn pc() {
    let mut cpu = counting_memory();
    let mut data = 0;
    for _ in 0..=3 {
        data = cpu.program_fetch();
    }
    println!("{:?}", cpu.program_counter_read());
    assert_eq!(data, 3);
    let mut cpu = counting_memory();
    for _ in 0..=123 {
        data = cpu.program_fetch();
    }
    assert_eq!(data, 123);
}

#[test]
fn sp() {
    let mut cpu = I8080::default();
    cpu.stack_pointer_load(256);
    cpu.push(3);
    cpu.push(1);
    cpu.push(4);
    cpu.push(1);
    cpu.push(5);
    assert_eq!(cpu.pop(), 5);
    assert_eq!(cpu.pop(), 1);
    assert_eq!(cpu.pop(), 4);
    assert_eq!(cpu.pop(), 1);
    assert_eq!(cpu.pop(), 3);
}

#[test]
fn stack_round_trip_restores_pointer() {
    let mut cpu = I8080::new();
    cpu.stack_pointer_load(256);
    for &d in &[3u8, 1, 4, 1, 5] {
        cpu.push(d);
    }
    assert_eq!(cpu.stack_pointer_read(), 251);
    let popped: Vec<u8> = (0..5).map(|_| cpu.pop()).collect();
    assert_eq!(popped, vec![5, 1, 4, 1, 3]);
    assert_eq!(cpu.stack_pointer_read(), 256);
}

#[test]
fn stack_wraps_below_zero() {
    let mut cpu = I8080::new();
    cpu.push(0xaa);
    assert_eq!(cpu.stack_pointer_read(), 0xffff);
    assert_eq!(cpu.memory_read(0xffff), 0xaa);
    assert_eq!(cpu.pop(), 0xaa);
    assert_eq!(cpu.stack_pointer_read(), 0);
}

#[test]
fn fetch_sequence_and_jump() {
    let mut cpu = counting_memory();
    let first: Vec<u8> = (0..4).map(|_| cpu.program_fetch()).collect();
    assert_eq!(first, vec![0, 1, 2, 3]);
    assert_eq!(cpu.program_counter_read(), 4);
    cpu.jump(31);
    let next: Vec<u8> = (0..3).map(|_| cpu.program_fetch()).collect();
    assert_eq!(next, vec![31, 32, 33]);
}

#[test]
fn program_counter_wraps() {
    let mut cpu = I8080::new();
    cpu.memory_store(0xffff, 0x42);
    cpu.jump(0xffff);
    assert_eq!(cpu.program_fetch(), 0x42);
    assert_eq!(cpu.program_counter_read(), 0);
}

#[test]
fn byte_loads_of_pointers() {
    let mut cpu = I8080::new();
    cpu.program_counter_load_high(0x12);
    cpu.program_counter_load_low(0x34);
    assert_eq!(cpu.program_counter_read(), 0x1234);
    cpu.stack_pointer_load_low(0xcd);
    cpu.stack_pointer_load_high(0xab);
    assert_eq!(cpu.stack_pointer_read(), 0xabcd);
}

#[test]
fn conditional_jump_follows_flag() {
    let mut cpu = I8080::new();
    cpu.jump_on(0x100, I8080ALUFlag::Zero);
    assert_eq!(cpu.program_counter_read(), 0);
    cpu.flag_load(FlagSetBits::from(0x40));
    assert!(cpu.flag_on(I8080ALUFlag::Zero));
    cpu.jump_on(0x100, I8080ALUFlag::Zero);
    assert_eq!(cpu.program_counter_read(), 0x100);
}

#[test]
fn flag_register_masked_load() {
    let mut cpu = I8080::new();
    cpu.acc_load(0x99);
    cpu.flag_load(FlagSetBits::from(0x80));
    cpu.flag_load_mask_slice(&[I8080ALUFlag::Carry], FlagSetBits::from(0x01));
    assert_eq!(cpu.flag_read().bits(), 0x81);
    cpu.flag_load_masked(FlagSetBits::from(0x80), FlagSetBits::from(0x00));
    assert_eq!(cpu.flag_read().bits(), 0x01);
    assert!(!cpu.flag_on(I8080ALUFlag::Sign));
    assert_eq!(cpu.acc_read(), 0x99);
}

#[test]
fn alu_acc_op_does_not_commit() {
    let mut cpu = I8080::new();
    cpu.acc_load(220);
    let (r, f) = cpu.alu_acc_op(I8080ALUControl::Add, 50);
    assert_eq!(r, 14);
    assert_eq!(f.bits(), 0x01);
    assert_eq!(cpu.acc_read(), 220);
    assert_eq!(cpu.flag_read().bits(), 0);
}

#[test]
fn memory_initialised_from_bytes() {
    let mem = Memory8Bit64KB::new(&[7, 8, 9]);
    assert_eq!(mem.read(0), 7);
    assert_eq!(mem.read(2), 9);
    assert_eq!(mem.read(3), 0);
    assert_eq!(mem.read(0xffff), 0);
    let cpu = I8080::with_memory(&[1, 2]);
    assert_eq!(cpu.memory_read(1), 2);
    assert_eq!(cpu.memory_read(2), 0);
}

#[test]
fn memory_store_touches_one_cell() {
    let mut mem = Memory8Bit64KB::default();
    mem.store(0x3141, 42);
    assert_eq!(mem.read(0x3141), 42);
    assert_eq!(mem.read(0x3140), 0);
    assert_eq!(mem.read(0x3142), 0);
}
