use vstd::prelude::*;

use crate::addressing::{Addressing, I8080Addressing16Bit, I8080Addressing8Bit};
use crate::alu::{FlagSet, FlagSetBits};
use crate::cpu::{CPUJump, CPUMemory, CPUStackPointer, CPU, I8080};
use crate::i8080::{
    flags_mask, lemma_commit_listed_flags, I8080ALUControl, I8080ALUFlag, I8080RegisterCode16Bit, I8080RegisterCode8Bit,
    I8080State,
};
use crate::register::{lemma_byte_halves_alias, RegisterCode, RegisterSet};

verus! {

/// One executable operation on a machine `C`.
pub trait Instruction<C: View> {
    /// The machine state after the operation runs in `model`.
    spec fn step(&self, model: C::V) -> C::V;

    fn execute(&self, cpu: &mut C)
        ensures
            final(cpu)@ == self.step(old(cpu)@),
    ;
}

/// A condition on the state of a machine `C`.
pub trait Predicate<C: View> {
    /// Whether the condition holds in `model`.
    spec fn holds(&self, model: C::V) -> bool;

    fn test(&self, cpu: &C) -> (r: bool)
        ensures
            r == self.holds(cpu@),
    ;
}

/// Turns a stream of instruction units into instructions of type `I`, one
/// unit at a time; `None` means that more units are needed. A decoder keeps
/// the units of a partly read instruction itself.
pub trait InstructionDecoder<I> {
    type InstructionSize;

    fn decode(&mut self, data: Self::InstructionSize) -> Option<I>;
}

/// Loads the program counter.
#[derive(Debug, Clone, Copy)]
pub struct Jump<A> {
    pub address: A,
}

impl<A> Jump<A> {
    pub fn new(address: A) -> (r: Self)
        ensures
            r.address == address,
    {
        Jump { address }
    }
}

/// Pushes a resolved operand onto the stack.
#[derive(Debug, Clone, Copy)]
pub struct Push<B> {
    pub data: B,
}

impl<B> Push<B> {
    pub fn new(data: B) -> (r: Self)
        ensures
            r.data == data,
    {
        Push { data }
    }
}

/// Pops the stack into a register.
#[derive(Debug, Clone, Copy)]
pub struct Pop<C> {
    pub dst: C,
}

impl<C> Pop<C> {
    pub fn new(dst: C) -> (r: Self)
        ensures
            r.dst == dst,
    {
        Pop { dst }
    }
}

/// Runs `inner` only when `cond` holds.
#[derive(Debug, Clone, Copy)]
pub struct Condition<F, I> {
    pub cond: F,
    pub inner: I,
}

impl<F, I> Condition<F, I> {
    pub fn new(cond: F, inner: I) -> (r: Self)
        ensures
            r.cond == cond,
            r.inner == inner,
    {
        Condition { cond, inner }
    }
}

/// Loads a resolved operand into a register.
#[derive(Debug, Clone, Copy)]
pub struct Load<C, A> {
    pub dst: C,
    pub src: A,
}

impl<C, A> Load<C, A> {
    pub fn new(dst: C, src: A) -> (r: Self)
        ensures
            r.dst == dst,
            r.src == src,
    {
        Load { dst, src }
    }
}

/// Stores a resolved operand at the memory address another operand resolves to.
#[derive(Debug, Clone, Copy)]
pub struct Store<D, S> {
    pub dst: D,
    pub src: S,
}

impl<D, S> Store<D, S> {
    pub fn new(dst: D, src: S) -> (r: Self)
        ensures
            r.dst == dst,
            r.src == src,
    {
        Store { dst, src }
    }
}

/// Combines the accumulator with a resolved operand in the ALU, commits the
/// listed flags only, and writes the result into a register.
#[derive(Debug, Clone)]
pub struct Arithmetic<C, F, D, L> {
    pub control: C,
    pub flags: Vec<F>,
    pub dst: D,
    pub rhs: L,
}

impl<C, F, D, L> Arithmetic<C, F, D, L> {
    pub fn new(control: C, flags: Vec<F>, dst: D, rhs: L) -> (r: Self)
        ensures
            r.control == control,
            r.flags == flags,
            r.dst == dst,
            r.rhs == rhs,
    {
        Arithmetic { control, flags, dst, rhs }
    }
}

impl<C: View, F: Predicate<C>, I: Instruction<C>> Instruction<C> for Condition<F, I> {
    open spec fn step(&self, model: C::V) -> C::V {
        if self.cond.holds(model) {
            self.inner.step(model)
        } else {
            model
        }
    }

    fn execute(&self, cpu: &mut C) {
        if self.cond.test(cpu) {
            self.inner.execute(cpu);
        }
    }
}

impl<C, R, A> Instruction<C> for Load<R, A> where
    C: RegisterSet<R>,
    R: RegisterCode,
    A: Addressing<C, Size = <C as RegisterSet<R>>::Size>,
 {
    open spec fn step(&self, model: C::V) -> C::V {
        C::model_load_of(model, self.dst, self.src.spec_value(model))
    }

    fn execute(&self, cpu: &mut C) {
        let bits = self.src.value(cpu);
        cpu.load_of(self.dst, bits);
    }
}

/// A flag, read as a condition: the flag is on.
impl Predicate<I8080> for I8080ALUFlag {
    open spec fn holds(&self, model: I8080State) -> bool {
        model.flag_on(*self)
    }

    fn test(&self, cpu: &I8080) -> (r: bool) {
        cpu.flag_on(*self)
    }
}

impl<C: CPUJump> Instruction<C> for Jump<C::Address> where C::Address: Copy {
    open spec fn step(&self, model: C::V) -> C::V {
        C::model_jump(model, self.address)
    }

    fn execute(&self, cpu: &mut C) {
        cpu.jump(self.address);
    }
}

impl<C: CPUStackPointer, B: Addressing<C, Size = C::Data>> Instruction<C> for Push<B> {
    open spec fn step(&self, model: C::V) -> C::V {
        C::model_push(model, self.data.spec_value(model))
    }

    fn execute(&self, cpu: &mut C) {
        let data = self.data.value(cpu);
        cpu.push(data);
    }
}

impl<C, R> Instruction<C> for Pop<R> where
    C: CPUStackPointer + RegisterSet<R, Size = <C as CPU>::Data>,
    R: RegisterCode,
 {
    open spec fn step(&self, model: C::V) -> C::V {
        C::model_load_of(C::model_pop(model).0, self.dst, C::model_pop(model).1)
    }

    fn execute(&self, cpu: &mut C) {
        let data = cpu.pop();
        cpu.load_of(self.dst, data);
    }
}

impl<C, D, S> Instruction<C> for Store<D, S> where
    C: CPUMemory,
    D: Addressing<C, Size = C::Address>,
    S: Addressing<C, Size = C::Data>,
 {
    open spec fn step(&self, model: C::V) -> C::V {
        C::model_memory_store(model, self.dst.spec_value(model), self.src.spec_value(model))
    }

    fn execute(&self, cpu: &mut C) {
        let address = self.dst.value(cpu);
        let data = self.src.value(cpu);
        cpu.memory_store(address, data);
    }
}

impl<L: Addressing<I8080, Size = u8>> Instruction<I8080> for Arithmetic<
    I8080ALUControl,
    I8080ALUFlag,
    I8080RegisterCode8Bit,
    L,
> {
    open spec fn step(&self, model: I8080State) -> I8080State {
        let (result, flags) = model.alu_acc_op(self.control, self.rhs.spec_value(model));
        model.with_flags_masked(FlagSetBits(flags_mask(self.flags@)), flags).with_reg8(
            self.dst,
            result,
        )
    }

    fn execute(&self, cpu: &mut I8080) {
        let rhs: u8 = self.rhs.value(cpu);
        let (result, flags): (u8, FlagSetBits) = cpu.alu_acc_op(self.control, rhs);
        cpu.flag_load_mask_slice(self.flags.as_slice(), flags);
        cpu.load_of(self.dst, result);
    }
}

/// The instructions an 8080 decoder hands to the run loop.
#[derive(Debug, Clone)]
pub enum I8080Instruction {
    Load8(Load<I8080RegisterCode8Bit, I8080Addressing8Bit>),
    Load16(Load<I8080RegisterCode16Bit, I8080Addressing16Bit>),
    Store(Store<I8080Addressing16Bit, I8080Addressing8Bit>),
    Arithmetic(Arithmetic<I8080ALUControl, I8080ALUFlag, I8080RegisterCode8Bit, I8080Addressing8Bit>),
    Jump(Jump<u16>),
    /// A jump taken only when the flag is on.
    ConditionalJump(Condition<I8080ALUFlag, Jump<u16>>),
    Push(Push<I8080Addressing8Bit>),
    Pop(Pop<I8080RegisterCode8Bit>),
    NoOp,
    /// Stops the run loop cleanly.
    Halt,
    /// An opcode the decoder does not know; stops the run loop with an error.
    Invalid,
}

impl Instruction<I8080> for I8080Instruction {
    open spec fn step(&self, model: I8080State) -> I8080State {
        match self {
            I8080Instruction::Load8(i) => Instruction::<I8080>::step(i, model),
            I8080Instruction::Load16(i) => Instruction::<I8080>::step(i, model),
            I8080Instruction::Store(i) => Instruction::<I8080>::step(i, model),
            I8080Instruction::Arithmetic(i) => Instruction::<I8080>::step(i, model),
            I8080Instruction::Jump(i) => Instruction::<I8080>::step(i, model),
            I8080Instruction::ConditionalJump(i) => Instruction::<I8080>::step(i, model),
            I8080Instruction::Push(i) => Instruction::<I8080>::step(i, model),
            I8080Instruction::Pop(i) => Instruction::<I8080>::step(i, model),
            _ => model,
        }
    }

    fn execute(&self, cpu: &mut I8080) {
        match self {
            I8080Instruction::Load8(i) => i.execute(cpu),
            I8080Instruction::Load16(i) => i.execute(cpu),
            I8080Instruction::Store(i) => i.execute(cpu),
            I8080Instruction::Arithmetic(i) => i.execute(cpu),
            I8080Instruction::Jump(i) => i.execute(cpu),
            I8080Instruction::ConditionalJump(i) => i.execute(cpu),
            I8080Instruction::Push(i) => i.execute(cpu),
            I8080Instruction::Pop(i) => i.execute(cpu),
            _ => {},
        }
    }
}

/// An arithmetic instruction sets each flag it lists to the value the ALU
/// computed and leaves every flag it does not list as it was, whatever
/// register it writes its result into.
pub proof fn lemma_arithmetic_commits_listed_flags<L: Addressing<I8080, Size = u8>>(
    instr: Arithmetic<I8080ALUControl, I8080ALUFlag, I8080RegisterCode8Bit, L>,
    model: I8080State,
    f: I8080ALUFlag,
)
    ensures
        instr.step(model).flag_on(f) == if instr.flags@.contains(f) {
            model.alu_acc_op(instr.control, instr.rhs.spec_value(model)).1.has(f)
        } else {
            model.flag_on(f)
        },
{
    let (result, flags) = model.alu_acc_op(instr.control, instr.rhs.spec_value(model));
    let committed = model.with_flags_masked(FlagSetBits(flags_mask(instr.flags@)), flags);
    lemma_commit_listed_flags(model, instr.flags@, flags, f);
    lemma_byte_halves_alias(committed.psw, result);
    assert(instr.step(model).flags() == committed.flags());
}

} // verus!
