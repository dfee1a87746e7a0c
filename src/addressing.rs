use vstd::prelude::*;

use crate::cpu::{CPUMemory, I8080};
use crate::i8080::{I8080RegisterCode16Bit, I8080RegisterCode8Bit, I8080State};
use crate::register::RegisterSet;

verus! {

/// A way of resolving an operand against the state of a machine `C`;
/// resolving never changes the machine.
pub trait Addressing<C: View> {
    type Size;

    /// The operand this resolves to in the machine state `model`.
    spec fn spec_value(&self, model: C::V) -> Self::Size;

    fn value(&self, cpu: &C) -> (r: Self::Size)
        ensures
            r == self.spec_value(cpu@),
    ;
}

/// Byte operands of the 8080.
#[derive(Debug, Clone, Copy, PartialEq, Eq, Structural)]
pub enum I8080Addressing8Bit {
    /// The byte itself.
    ImmediateValue(u8),
    /// The byte a register holds.
    ImmediateRegister(I8080RegisterCode8Bit),
    /// The byte memory holds at an address.
    DirectValue(u16),
    /// The byte memory holds at the address a register pair holds.
    DirectRegister(I8080RegisterCode16Bit),
}

/// Word operands of the 8080.
#[derive(Debug, Clone, Copy, PartialEq, Eq, Structural)]
pub enum I8080Addressing16Bit {
    /// The word itself.
    ImmediateValue(u16),
    /// The word a register pair holds.
    ImmediateRegister(I8080RegisterCode16Bit),
}

impl Addressing<I8080> for I8080Addressing8Bit {
    type Size = u8;

    open spec fn spec_value(&self, model: I8080State) -> u8 {
        match *self {
            I8080Addressing8Bit::ImmediateValue(v) => v,
            I8080Addressing8Bit::ImmediateRegister(reg) => model.reg8(reg),
            I8080Addressing8Bit::DirectValue(address) => model.mem(address),
            I8080Addressing8Bit::DirectRegister(reg) => model.mem(model.reg16(reg)),
        }
    }

    fn value(&self, cpu: &I8080) -> (r: u8)
        decreases
            (if *self is DirectRegister {
                1nat
            } else {
                0nat
            }),
    {
        match *self {
            I8080Addressing8Bit::ImmediateValue(v) => v,
            I8080Addressing8Bit::ImmediateRegister(reg) => cpu.read_of(reg),
            I8080Addressing8Bit::DirectValue(address) => cpu.memory_read(address),
            I8080Addressing8Bit::DirectRegister(reg) => {
                I8080Addressing8Bit::DirectValue(cpu.read_of(reg)).value(cpu)
            },
        }
    }
}

impl Addressing<I8080> for I8080Addressing16Bit {
    type Size = u16;

    open spec fn spec_value(&self, model: I8080State) -> u16 {
        match *self {
            I8080Addressing16Bit::ImmediateValue(v) => v,
            I8080Addressing16Bit::ImmediateRegister(reg) => model.reg16(reg),
        }
    }

    fn value(&self, cpu: &I8080) -> (r: u16) {
        match *self {
            I8080Addressing16Bit::ImmediateValue(v) => v,
            I8080Addressing16Bit::ImmediateRegister(reg) => cpu.read_of(reg),
        }
    }
}

} // verus!
