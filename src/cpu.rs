use vstd::prelude::*;

use crate::alu::{merge_bits, FlagSet, FlagSetBits, ALU};
use crate::i8080::{
    flags_mask, I8080ALUControl, I8080ALUFlag, I8080RegisterCode16Bit,
    I8080RegisterCode8Bit, I8080State, I8080ALU,
};
use crate::memory::{lemma_memory_len, Memory, Memory8Bit64KB};
use crate::register::{
    low_byte, masked_merge, with_byte, MaskedRegisterLoader, Register16In8Loader,
    Register16In8Reader, Register16Loader, Register16Reader, RegisterSet,
};
use crate::instruction::{I8080Instruction, Instruction, InstructionDecoder};

verus! {

broadcast use lemma_memory_len;

/// Where the run loop stands: `Halted` and `Error` are terminal.
#[derive(Debug, Clone, Copy, PartialEq, Eq, Structural)]
pub enum CPURunningState {
    Running,
    Halted,
    Error,
}

/// A machine with words of type `Data` and addresses of type `Address`,
/// whose state its view describes.
pub trait CPU: View + Sized {
    type Data;
    type Address;
}

/// A machine with memory.
pub trait CPUMemory: CPU {
    /// The word memory holds at `address` in `model`.
    spec fn model_memory_read(model: Self::V, address: Self::Address) -> Self::Data;

    /// `model` after `data` is stored at `address`.
    spec fn model_memory_store(model: Self::V, address: Self::Address, data: Self::Data) -> Self::V;

    fn memory_read(&self, address: Self::Address) -> (r: Self::Data)
        ensures
            r == Self::model_memory_read(self@, address),
    ;

    fn memory_store(&mut self, address: Self::Address, data: Self::Data)
        ensures
            final(self)@ == Self::model_memory_store(old(self)@, address, data),
    ;
}

/// A machine that fetches its program through a program counter.
pub trait CPUProgramCounter: CPU {
    /// The program counter in `model`.
    spec fn model_program_counter(model: Self::V) -> Self::Address;

    /// The word at the program counter, and `model` with the counter advanced.
    spec fn model_fetch(model: Self::V) -> (Self::V, Self::Data);

    fn program_counter_read(&self) -> (r: Self::Address)
        ensures
            r == Self::model_program_counter(self@),
    ;

    fn program_fetch(&mut self) -> (r: Self::Data)
        ensures
            (final(self)@, r) == Self::model_fetch(old(self)@),
    ;
}

/// A machine with a stack in memory.
pub trait CPUStackPointer: CPU {
    /// The stack pointer in `model`.
    spec fn model_stack_pointer(model: Self::V) -> Self::Address;

    /// `model` with the stack pointer set to `address`.
    spec fn model_stack_pointer_load(model: Self::V, address: Self::Address) -> Self::V;

    /// `model` after `data` is pushed.
    spec fn model_push(model: Self::V, data: Self::Data) -> Self::V;

    /// The word popped from `model`, and the state after the pop.
    spec fn model_pop(model: Self::V) -> (Self::V, Self::Data);

    fn stack_pointer_read(&self) -> (r: Self::Address)
        ensures
            r == Self::model_stack_pointer(self@),
    ;

    fn stack_pointer_load(&mut self, address: Self::Address)
        ensures
            final(self)@ == Self::model_stack_pointer_load(old(self)@, address),
    ;

    fn push(&mut self, data: Self::Data)
        ensures
            final(self)@ == Self::model_push(old(self)@, data),
    ;

    fn pop(&mut self) -> (r: Self::Data)
        ensures
            (final(self)@, r) == Self::model_pop(old(self)@),
    ;
}

/// A machine that can load its program counter.
pub trait CPUJump: CPUProgramCounter {
    /// `model` with the program counter set to `address`.
    spec fn model_jump(model: Self::V, address: Self::Address) -> Self::V;

    fn jump(&mut self, address: Self::Address)
        ensures
            final(self)@ == Self::model_jump(old(self)@, address),
    ;
}

/// An 8080 machine: register pairs PSW (accumulator and flags), BC, DE, HL,
/// the stack pointer, the program counter, and 64 KiB of memory.
#[derive(Debug)]
pub struct I8080 {
    psw: u16,
    b: u16,
    d: u16,
    h: u16,
    sp: u16,
    pc: u16,
    memory: Memory8Bit64KB,
}

impl View for I8080 {
    type V = I8080State;

    closed spec fn view(&self) -> I8080State {
        I8080State {
            psw: self.psw,
            bc: self.b,
            de: self.d,
            hl: self.h,
            sp: self.sp,
            pc: self.pc,
            memory: self.memory@,
        }
    }
}

/// Every machine state holds one byte of memory for each address.
pub broadcast proof fn lemma_i8080_valid(cpu: &I8080)
    ensures
        #![trigger cpu@]
        cpu@.valid(),
{
}

proof fn lemma_masked_flag_load(psw: u16, mask: u8, bits: u8)
    by (bit_vector)
    ensures
        masked_merge(psw, mask as u16, bits as u16) == with_byte(
            psw,
            true,
            merge_bits(low_byte(psw), mask, bits),
        ),
{
}

impl I8080 {
    /// A machine with every register and every memory byte zero.
    pub fn new() -> (r: I8080)
        ensures
            r@.psw == 0 && r@.bc == 0 && r@.de == 0 && r@.hl == 0,
            r@.sp == 0 && r@.pc == 0,
            forall|i: int| 0 <= i < 65536 ==> r@.memory[i] == 0,
    {
        I8080 { psw: 0, b: 0, d: 0, h: 0, sp: 0, pc: 0, memory: Memory8Bit64KB::default() }
    }

    /// A machine with every register zero and `bytes` loaded from address 0.
    pub fn with_memory(bytes: &[u8]) -> (r: I8080)
        requires
            bytes@.len() <= 65536,
        ensures
            r@.psw == 0 && r@.bc == 0 && r@.de == 0 && r@.hl == 0,
            r@.sp == 0 && r@.pc == 0,
            forall|i: int| 0 <= i < bytes@.len() ==> r@.memory[i] == bytes@[i],
            forall|i: int| bytes@.len() <= i < 65536 ==> r@.memory[i] == 0,
    {
        I8080 { psw: 0, b: 0, d: 0, h: 0, sp: 0, pc: 0, memory: Memory8Bit64KB::new(bytes) }
    }

    /// The accumulator.
    pub fn acc_read(&self) -> (r: u8)
        ensures
            r == self@.acc(),
    {
        Register16In8Reader::new(&self.psw, false).read()
    }

    pub fn acc_load(&mut self, data: u8)
        ensures
            final(self)@ == old(self)@.with_reg8(I8080RegisterCode8Bit::A, data),
    {
        Register16In8Loader::new(&mut self.psw, false).load(data);
    }

    /// The flag register.
    pub fn flag_read(&self) -> (r: FlagSetBits)
        ensures
            r == self@.flags(),
    {
        FlagSetBits(Register16In8Reader::new(&self.psw, true).read())
    }

    pub fn flag_on(&self, flag: I8080ALUFlag) -> (r: bool)
        ensures
            r == self@.flag_on(flag),
    {
        self.flag_read().get_flag(flag)
    }

    /// Loads the flags that `mask` selects from `bits`; every other flag bit,
    /// and the accumulator, keep their values.
    pub fn flag_load_masked(&mut self, mask: FlagSetBits, bits: FlagSetBits)
        ensures
            final(self)@ == old(self)@.with_flags_masked(mask, bits),
    {
        proof {
            lemma_masked_flag_load(self.psw, mask.0, bits.0);
        }
        MaskedRegisterLoader::new(Register16Loader::new(&mut self.psw), mask.0 as u16).load(
            bits.0 as u16,
        );
    }

    /// Loads the whole flag register.
    pub fn flag_load(&mut self, bits: FlagSetBits)
        ensures
            final(self)@ == old(self)@.with_flags_masked(FlagSetBits(0xff), bits),
    {
        self.flag_load_masked(FlagSetBits(0xff), bits);
    }

    /// Loads from `bits` the flags listed in `flag_masks` only.
    pub fn flag_load_mask_slice(&mut self, flag_masks: &[I8080ALUFlag], bits: FlagSetBits)
        ensures
            final(self)@ == old(self)@.with_flags_masked(FlagSetBits(flags_mask(flag_masks@)), bits),
    {
        let mask: FlagSetBits = FlagSetBits::from_slice(flag_masks);
        self.flag_load_masked(mask, bits);
    }

    pub fn program_counter_load_high(&mut self, data: u8)
        ensures
            final(self)@ == (I8080State { pc: with_byte(old(self)@.pc, false, data), ..old(self)@ }),
    {
        Register16In8Loader::new(&mut self.pc, false).load(data);
    }

    pub fn program_counter_load_low(&mut self, data: u8)
        ensures
            final(self)@ == (I8080State { pc: with_byte(old(self)@.pc, true, data), ..old(self)@ }),
    {
        Register16In8Loader::new(&mut self.pc, true).load(data);
    }

    pub fn stack_pointer_load_high(&mut self, data: u8)
        ensures
            final(self)@ == (I8080State { sp: with_byte(old(self)@.sp, false, data), ..old(self)@ }),
    {
        Register16In8Loader::new(&mut self.sp, false).load(data);
    }

    pub fn stack_pointer_load_low(&mut self, data: u8)
        ensures
            final(self)@ == (I8080State { sp: with_byte(old(self)@.sp, true, data), ..old(self)@ }),
    {
        Register16In8Loader::new(&mut self.sp, true).load(data);
    }

    /// Jumps to `address` when `flag` is on; otherwise changes nothing.
    pub fn jump_on(&mut self, address: u16, flag: I8080ALUFlag)
        ensures
            final(self)@ == old(self)@.jump_on(address, flag),
    {
        if self.flag_on(flag) {
            self.jump(address);
        }
    }

    /// The ALU's result and flags on the accumulator and `operand`; nothing
    /// is committed.
    pub fn alu_acc_op(&self, control: I8080ALUControl, operand: u8) -> (r: (u8, FlagSetBits))
        ensures
            r == self@.alu_acc_op(control, operand),
    {
        let alu = I8080ALU::new();
        alu.op(control, self.acc_read(), operand)
    }
}

impl CPU for I8080 {
    type Data = u8;
    type Address = u16;
}

impl CPUMemory for I8080 {
    open spec fn model_memory_read(model: I8080State, address: u16) -> u8 {
        model.mem(address)
    }

    open spec fn model_memory_store(model: I8080State, address: u16, data: u8) -> I8080State {
        model.with_mem(address, data)
    }

    fn memory_read(&self, address: u16) -> (r: u8) {
        self.memory.read(address)
    }

    fn memory_store(&mut self, address: u16, data: u8) {
        self.memory.store(address, data);
    }
}

impl CPUProgramCounter for I8080 {
    open spec fn model_program_counter(model: I8080State) -> u16 {
        model.pc
    }

    open spec fn model_fetch(model: I8080State) -> (I8080State, u8) {
        model.fetch()
    }

    fn program_counter_read(&self) -> (r: u16) {
        Register16Reader::new(&self.pc).read()
    }

    /// Reads the byte at the program counter, then advances the counter by
    /// one, wrapping from 0xFFFF to 0.
    fn program_fetch(&mut self) -> (r: u8) {
        let data: u8 = self.memory.read(self.pc);
        self.pc = self.pc.wrapping_add(1);
        data
    }
}

impl CPUStackPointer for I8080 {
    open spec fn model_stack_pointer(model: I8080State) -> u16 {
        model.sp
    }

    open spec fn model_stack_pointer_load(model: I8080State, address: u16) -> I8080State {
        I8080State { sp: address, ..model }
    }

    open spec fn model_push(model: I8080State, data: u8) -> I8080State {
        model.push(data)
    }

    open spec fn model_pop(model: I8080State) -> (I8080State, u8) {
        model.pop()
    }

    fn stack_pointer_read(&self) -> (r: u16) {
        Register16Reader::new(&self.sp).read()
    }

    fn stack_pointer_load(&mut self, address: u16) {
        Register16Loader::new(&mut self.sp).load(address);
    }

    /// Decrements the stack pointer, wrapping, then stores `data` where it points.
    fn push(&mut self, data: u8) {
        self.sp = self.sp.wrapping_sub(1);
        self.memory.store(self.sp, data);
    }

    /// Reads the byte where the stack pointer points, then increments the
    /// pointer, wrapping.
    fn pop(&mut self) -> (r: u8) {
        let data: u8 = self.memory.read(self.sp);
        self.sp = self.sp.wrapping_add(1);
        data
    }
}

impl CPUJump for I8080 {
    open spec fn model_jump(model: I8080State, address: u16) -> I8080State {
        model.jump(address)
    }

    fn jump(&mut self, address: u16) {
        Register16Loader::new(&mut self.pc).load(address);
    }
}

impl Default for I8080 {
    fn default() -> (r: I8080)
        ensures
            r@.psw == 0 && r@.bc == 0 && r@.de == 0 && r@.hl == 0,
            r@.sp == 0 && r@.pc == 0,
            forall|i: int| 0 <= i < 65536 ==> r@.memory[i] == 0,
    {
        I8080::new()
    }
}

impl RegisterSet<I8080RegisterCode8Bit> for I8080 {
    type Size = u8;

    open spec fn model_read_of(model: I8080State, code: I8080RegisterCode8Bit) -> u8 {
        model.reg8(code)
    }

    open spec fn model_load_of(model: I8080State, code: I8080RegisterCode8Bit, bits: u8) -> I8080State {
        model.with_reg8(code, bits)
    }

    fn load_of(&mut self, code: I8080RegisterCode8Bit, bits: u8) {
        let low: bool = code.is_low();
        let register: &mut u16 = match code {
            I8080RegisterCode8Bit::A => &mut self.psw,
            I8080RegisterCode8Bit::B => &mut self.b,
            I8080RegisterCode8Bit::C => &mut self.b,
            I8080RegisterCode8Bit::D => &mut self.d,
            I8080RegisterCode8Bit::E => &mut self.d,
            I8080RegisterCode8Bit::H => &mut self.h,
            I8080RegisterCode8Bit::L => &mut self.h,
        };
        Register16In8Loader::new(register, low).load(bits);
    }

    fn read_of(&self, code: I8080RegisterCode8Bit) -> (r: u8) {
        let low: bool = code.is_low();
        let register: &u16 = match code {
            I8080RegisterCode8Bit::A => &self.psw,
            I8080RegisterCode8Bit::B => &self.b,
            I8080RegisterCode8Bit::C => &self.b,
            I8080RegisterCode8Bit::D => &self.d,
            I8080RegisterCode8Bit::E => &self.d,
            I8080RegisterCode8Bit::H => &self.h,
            I8080RegisterCode8Bit::L => &self.h,
        };
        Register16In8Reader::new(register, low).read()
    }
}

impl RegisterSet<I8080RegisterCode16Bit> for I8080 {
    type Size = u16;

    open spec fn model_read_of(model: I8080State, code: I8080RegisterCode16Bit) -> u16 {
        model.reg16(code)
    }

    open spec fn model_load_of(model: I8080State, code: I8080RegisterCode16Bit, bits: u16) -> I8080State {
        model.with_reg16(code, bits)
    }

    fn load_of(&mut self, code: I8080RegisterCode16Bit, bits: u16) {
        let register: &mut u16 = match code {
            I8080RegisterCode16Bit::PSW => &mut self.psw,
            I8080RegisterCode16Bit::BC => &mut self.b,
            I8080RegisterCode16Bit::DE => &mut self.d,
            I8080RegisterCode16Bit::HL => &mut self.h,
        };
        Register16Loader::new(register).load(bits);
    }

    fn read_of(&self, code: I8080RegisterCode16Bit) -> (r: u16) {
        let register: &u16 = match code {
            I8080RegisterCode16Bit::PSW => &self.psw,
            I8080RegisterCode16Bit::BC => &self.b,
            I8080RegisterCode16Bit::DE => &self.d,
            I8080RegisterCode16Bit::HL => &self.h,
        };
        Register16Reader::new(register).read()
    }
}

/// The state and run state after an instruction that the decoder handed
/// back as `decoded` runs in `model`: no instruction yet leaves everything
/// as it is, `Halt` and `Invalid` stop the loop, any other runs.
pub open spec fn run_decoded(model: I8080State, decoded: Option<I8080Instruction>) -> (
    I8080State,
    CPURunningState,
) {
    match decoded {
        None => (model, CPURunningState::Running),
        Some(I8080Instruction::Halt) => (model, CPURunningState::Halted),
        Some(I8080Instruction::Invalid) => (model, CPURunningState::Error),
        Some(i) => (i.step(model), CPURunningState::Running),
    }
}

/// One cycle from `model`: fetch a byte, which decodes to `decoded`, then
/// run what was decoded.
pub open spec fn cycle_outcome(model: I8080State, decoded: Option<I8080Instruction>) -> (
    I8080State,
    CPURunningState,
) {
    run_decoded(model.fetch().0, decoded)
}

/// `n` cycles lead from `model` to `after` and end in `state`, every cycle
/// before the last one ending in `Running`.
pub open spec fn cycles_to(model: I8080State, after: I8080State, state: CPURunningState, n: nat) -> bool
    decreases n,
{
    if n == 0 {
        after == model && state == CPURunningState::Running
    } else {
        exists|mid: I8080State, decoded: Option<I8080Instruction>|
            cycles_to(model, mid, CPURunningState::Running, (n - 1) as nat) && (after, state)
                == cycle_outcome(mid, decoded)
    }
}

impl I8080 {
    /// Runs what a decoder handed back.
    pub fn execute_decoded(&mut self, decoded: Option<I8080Instruction>) -> (s: CPURunningState)
        ensures
            (final(self)@, s) == run_decoded(old(self)@, decoded),
    {
        match decoded {
            None => CPURunningState::Running,
            Some(I8080Instruction::Halt) => CPURunningState::Halted,
            Some(I8080Instruction::Invalid) => CPURunningState::Error,
            Some(i) => {
                i.execute(self);
                CPURunningState::Running
            },
        }
    }


    /// One fetch-decode-execute step; returns the next run state.
    pub fn cycle<D: InstructionDecoder<I8080Instruction, InstructionSize = u8>>(
        &mut self,
        decoder: &mut D,
    ) -> (s: CPURunningState)
        ensures
            exists|decoded: Option<I8080Instruction>|
                (final(self)@, s) == cycle_outcome(old(self)@, decoded),
    {
        let data: u8 = self.program_fetch();
        let decoded: Option<I8080Instruction> = decoder.decode(data);
        let s = self.execute_decoded(decoded);
        assert((self@, s) == cycle_outcome(old(self)@, decoded));
        s
    }

    /// Cycles while the machine is running, at most `max_cycles` times;
    /// returns the run state it stopped in.
    pub fn run<D: InstructionDecoder<I8080Instruction, InstructionSize = u8>>(
        &mut self,
        decoder: &mut D,
        max_cycles: u64,
    ) -> (s: CPURunningState)
        ensures
            exists|n: nat|
                n <= max_cycles && cycles_to(old(self)@, final(self)@, s, n) && (s
                    == CPURunningState::Running ==> n == max_cycles),
    {
        let mut state: CPURunningState = CPURunningState::Running;
        let mut n: u64 = 0;
        while n < max_cycles && matches!(state, CPURunningState::Running)
            invariant
                n <= max_cycles,
                cycles_to(old(self)@, self@, state, n as nat),
            decreases max_cycles - n,
        {
            let ghost before = self@;
            state = self.cycle(decoder);
            proof {
                let decoded = choose|decoded: Option<I8080Instruction>|
                    (self@, state) == cycle_outcome(before, decoded);
                assert(cycles_to(old(self)@, before, CPURunningState::Running, n as nat));
                assert(cycles_to(old(self)@, self@, state, (n + 1) as nat));
            }
            n = n + 1;
        }
        state
    }
}

} // verus!
