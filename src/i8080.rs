use vstd::prelude::*;

use crate::alu::{merge_bits, FlagSet, FlagSetBits, ALU};
use crate::register::{
    byte_of, high_byte, lemma_byte_halves_alias, low_byte, with_byte, RegisterCode,
};

verus! {

/// The 8-bit registers of the 8080; each is one half of a register pair.
#[derive(Debug, Clone, Copy, PartialEq, Eq, Structural)]
pub enum I8080RegisterCode8Bit {
    A,
    B,
    C,
    D,
    E,
    H,
    L,
}

/// The 16-bit register pairs of the 8080; PSW holds the accumulator in its
/// high byte and the flag register in its low byte.
#[derive(Debug, Clone, Copy, PartialEq, Eq, Structural)]
pub enum I8080RegisterCode16Bit {
    PSW,
    BC,
    DE,
    HL,
}

impl RegisterCode for I8080RegisterCode8Bit {
}

impl RegisterCode for I8080RegisterCode16Bit {
}

impl I8080RegisterCode8Bit {
    /// Whether the register is the low byte of its pair.
    pub open spec fn spec_is_low(self) -> bool {
        self is C || self is E || self is L
    }

    /// The register pair that holds this register.
    pub open spec fn pair(self) -> I8080RegisterCode16Bit {
        match self {
            I8080RegisterCode8Bit::A => I8080RegisterCode16Bit::PSW,
            I8080RegisterCode8Bit::B | I8080RegisterCode8Bit::C => I8080RegisterCode16Bit::BC,
            I8080RegisterCode8Bit::D | I8080RegisterCode8Bit::E => I8080RegisterCode16Bit::DE,
            I8080RegisterCode8Bit::H | I8080RegisterCode8Bit::L => I8080RegisterCode16Bit::HL,
        }
    }

    pub fn is_low(self) -> (r: bool)
        ensures
            r == self.spec_is_low(),
    {
        match self {
            I8080RegisterCode8Bit::A => false,
            I8080RegisterCode8Bit::B => false,
            I8080RegisterCode8Bit::D => false,
            I8080RegisterCode8Bit::H => false,
            I8080RegisterCode8Bit::C => true,
            I8080RegisterCode8Bit::E => true,
            I8080RegisterCode8Bit::L => true,
        }
    }
}

/// The condition flags of the 8080.
#[derive(Debug, Clone, Copy, PartialEq, Eq, Structural)]
pub enum I8080ALUFlag {
    Sign,
    Zero,
    AuxiliaryCarry,
    Parity,
    Carry,
}

impl I8080ALUFlag {
    /// The bit of the flag register that holds the flag.
    pub open spec fn spec_mask(self) -> u8 {
        match self {
            I8080ALUFlag::Sign => 128,
            I8080ALUFlag::Zero => 64,
            I8080ALUFlag::AuxiliaryCarry => 16,
            I8080ALUFlag::Parity => 4,
            I8080ALUFlag::Carry => 1,
        }
    }

    pub fn mask(self) -> (r: u8)
        ensures
            r == self.spec_mask(),
    {
        match self {
            I8080ALUFlag::Sign => 128,
            I8080ALUFlag::Zero => 64,
            I8080ALUFlag::AuxiliaryCarry => 16,
            I8080ALUFlag::Parity => 4,
            I8080ALUFlag::Carry => 1,
        }
    }
}

/// The operations of the 8080's ALU.
#[derive(Debug, Clone, Copy, PartialEq, Eq, Structural)]
pub enum I8080ALUControl {
    Add,
    Subtract,
    BitAnd,
    BitOr,
    BitXor,
    /// Adds one to the first operand; the second is ignored.
    Increase,
    /// Subtracts one from the first operand; the second is ignored.
    Decrease,
    /// Rotates the first operand right by one bit: bit 0 moves to bit 7 and
    /// into the carry; the second operand is ignored.
    Right,
}

/// `m` is the bit of one of the flags.
pub open spec fn is_flag_bit(m: u8) -> bool {
    m == 128 || m == 64 || m == 16 || m == 4 || m == 1
}

proof fn lemma_set_clear_bit(x: u8, m: u8, n: u8)
    by (bit_vector)
    requires
        is_flag_bit(m),
        is_flag_bit(n),
    ensures
        ((x | m) & m) == m,
        ((x & !m) & m) != m,
        m != n ==> (((x | m) & n) == n <==> (x & n) == n),
        m != n ==> (((x & !m) & n) == n <==> (x & n) == n),
{
}

proof fn lemma_merge_bit(old: u8, mask: u8, update: u8, n: u8)
    by (bit_vector)
    requires
        is_flag_bit(n),
    ensures
        (merge_bits(old, mask, update) & n == n) == if mask & n == n {
            update & n == n
        } else {
            old & n == n
        },
{
}

proof fn lemma_mask_is_flag_bit(f: I8080ALUFlag)
    ensures
        is_flag_bit(f.spec_mask()),
{
}

/// The byte whose flag bits are the given conditions, and no other bits.
pub open spec fn flag_byte(sign: bool, zero: bool, aux: bool, parity: bool, carry: bool) -> u8 {
    (if sign { 128u8 } else { 0u8 }) | (if zero { 64u8 } else { 0u8 }) | (if aux { 16u8 } else { 0u8 })
        | (if parity { 4u8 } else { 0u8 }) | (if carry { 1u8 } else { 0u8 })
}

/// The flag byte that is on exactly for the flags of `flags`.
pub open spec fn flags_mask(flags: Seq<I8080ALUFlag>) -> u8
    decreases flags.len(),
{
    if flags.len() == 0 {
        0
    } else {
        flags_mask(flags.drop_last()) | flags.last().spec_mask()
    }
}

impl FlagSet<I8080ALUFlag> for FlagSetBits {
    open spec fn has(&self, flag: I8080ALUFlag) -> bool {
        self.0 & flag.spec_mask() == flag.spec_mask()
    }

    fn change(&mut self, flag: I8080ALUFlag, set: bool) {
        let m: u8 = flag.mask();
        let x: u8 = self.0;
        proof {
            lemma_mask_is_flag_bit(flag);
            assert forall|g: I8080ALUFlag| g != flag implies ((x | m) & g.spec_mask() == g.spec_mask()
                <==> x & g.spec_mask() == g.spec_mask()) && ((x & !m) & g.spec_mask()
                == g.spec_mask() <==> x & g.spec_mask() == g.spec_mask()) by {
                lemma_mask_is_flag_bit(g);
                lemma_set_clear_bit(x, m, g.spec_mask());
            }
            lemma_set_clear_bit(x, m, m);
        }
        if set {
            self.0 = x | m;
        } else {
            self.0 = x & !m;
        }
    }

    fn get_flag(&self, flag: I8080ALUFlag) -> (r: bool) {
        let b: u8 = flag.mask();
        (self.0 & b) == b
    }

    fn all_on() -> (r: FlagSetBits) {
        proof {
            assert forall|f: I8080ALUFlag| 0xffu8 & f.spec_mask() == f.spec_mask() by {
                let m = f.spec_mask();
                assert(0xffu8 & m == m) by (bit_vector);
            }
        }
        FlagSetBits(0xff)
    }

    fn all_off() -> (r: FlagSetBits) {
        proof {
            assert forall|f: I8080ALUFlag| 0u8 & f.spec_mask() != f.spec_mask() by {
                let m = f.spec_mask();
                lemma_mask_is_flag_bit(f);
                assert(is_flag_bit(m) ==> 0u8 & m != m) by (bit_vector);
            }
        }
        FlagSetBits(0)
    }

    fn from_slice(flags: &[I8080ALUFlag]) -> (r: FlagSetBits)
        ensures
            r.0 == flags_mask(flags@),
    {
        let mut r = FlagSetBits(0);
        let mut i: usize = 0;
        proof {
            assert forall|f: I8080ALUFlag| !r.has(f) by {
                let m = f.spec_mask();
                lemma_mask_is_flag_bit(f);
                assert(is_flag_bit(m) ==> 0u8 & m != m) by (bit_vector);
            }
        }
        while i < flags.len()
            invariant
                i <= flags@.len(),
                r.0 == flags_mask(flags@.take(i as int)),
                forall|f: I8080ALUFlag| r.has(f) <==> flags@.take(i as int).contains(f),
            decreases flags@.len() - i,
        {
            let f: I8080ALUFlag = flags[i];
            let ghost before = r;
            r.0 = r.0 | f.mask();
            proof {
                let s = flags@.take(i as int + 1);
                assert(s.drop_last() =~= flags@.take(i as int));
                assert(s.last() == f);
                lemma_mask_is_flag_bit(f);
                assert forall|g: I8080ALUFlag| r.has(g) <==> s.contains(g) by {
                    lemma_mask_is_flag_bit(g);
                    lemma_set_clear_bit(before.0, f.spec_mask(), g.spec_mask());
                    assert(before.has(g) <==> flags@.take(i as int).contains(g));
                    if g == f {
                        assert(s[i as int] == f);
                    } else {
                        if s.contains(g) {
                            let k = choose|k: int| 0 <= k < s.len() && s[k] == g;
                            assert(flags@.take(i as int)[k] == g);
                        }
                        if flags@.take(i as int).contains(g) {
                            let k = choose|k: int| 0 <= k < i && flags@.take(i as int)[k] == g;
                            assert(s[k] == g);
                        }
                    }
                }
            }
            i = i + 1;
        }
        assert(flags@.take(flags@.len() as int) =~= flags@);
        r
    }
}

/// Merging a flag set through a mask takes each flag in the mask from the
/// update and keeps every other flag as it was.
pub proof fn lemma_merge_flags(old: FlagSetBits, mask: FlagSetBits, update: FlagSetBits, f: I8080ALUFlag)
    ensures
        FlagSetBits(merge_bits(old.0, mask.0, update.0)).has(f) == if mask.has(f) {
            update.has(f)
        } else {
            old.has(f)
        },
{
    lemma_mask_is_flag_bit(f);
    lemma_merge_bit(old.0, mask.0, update.0, f.spec_mask());
}

/// The number of one bits of `r` among its `n` lowest bits.
pub open spec fn ones_below(r: u8, n: nat) -> nat
    decreases n,
{
    if n == 0 {
        0
    } else {
        ones_below(r, (n - 1) as nat) + ((r >> ((n - 1) as u8)) & 1u8) as nat
    }
}

/// Whether `r` has an even number of one bits.
pub open spec fn even_parity(r: u8) -> bool {
    ones_below(r, 8) % 2 == 0
}

fn parity_is_even(r: u8) -> (p: bool)
    ensures
        p == even_parity(r),
{
    let mut count: u8 = 0;
    let mut i: u8 = 0;
    while i < 8
        invariant
            i <= 8,
            count <= i,
            count == ones_below(r, i as nat),
        decreases 8 - i,
    {
        let bit: u8 = (r >> i) & 1u8;
        assert(bit <= 1) by (bit_vector)
            requires
                bit == (r >> i) & 1u8,
        ;
        count = count + bit;
        i = i + 1;
    }
    count % 2 == 0
}

/// The 8-bit result of `code` on `a` and `b`, wrapping modulo 256.
pub open spec fn alu_result(code: I8080ALUControl, a: u8, b: u8) -> u8 {
    match code {
        I8080ALUControl::Add => ((a + b) % 256) as u8,
        I8080ALUControl::Subtract => ((a - b + 256) % 256) as u8,
        I8080ALUControl::BitAnd => a & b,
        I8080ALUControl::BitOr => a | b,
        I8080ALUControl::BitXor => a ^ b,
        I8080ALUControl::Increase => ((a + 1) % 256) as u8,
        I8080ALUControl::Decrease => ((a + 255) % 256) as u8,
        I8080ALUControl::Right => (a >> 1u8) | ((a & 1u8) << 7u8),
    }
}

/// Whether `code` on `a` and `b` carries out of bit 7 (for a subtraction:
/// borrows into it); a rotation carries the bit rotated out of bit 0.
pub open spec fn alu_carry(code: I8080ALUControl, a: u8, b: u8) -> bool {
    match code {
        I8080ALUControl::Add => a + b > 255,
        I8080ALUControl::Subtract => a < b,
        I8080ALUControl::Increase => a == 255,
        I8080ALUControl::Decrease => a == 0,
        I8080ALUControl::Right => a & 1u8 == 1,
        _ => false,
    }
}

/// Whether `code` on `a` and `b` carries out of bit 3; a subtraction is an
/// addition of the two's complement, and an and-operation sets it from bit 3
/// of either operand.
pub open spec fn alu_aux_carry(code: I8080ALUControl, a: u8, b: u8) -> bool {
    match code {
        I8080ALUControl::Add => (a & 15u8) + (b & 15u8) > 15,
        I8080ALUControl::Subtract => (a & 15u8) >= (b & 15u8),
        I8080ALUControl::Increase => a & 15u8 == 15,
        I8080ALUControl::Decrease => a & 15u8 != 0,
        I8080ALUControl::BitAnd => (a | b) & 8u8 != 0,
        _ => false,
    }
}

/// The flags that `code` on `a` and `b` reports.
pub open spec fn alu_flags(code: I8080ALUControl, a: u8, b: u8) -> FlagSetBits {
    let r = alu_result(code, a, b);
    FlagSetBits(
        flag_byte(
            r >= 128,
            r == 0,
            alu_aux_carry(code, a, b),
            even_parity(r),
            alu_carry(code, a, b),
        ),
    )
}

/// A flag byte built from conditions reports exactly those conditions.
pub proof fn lemma_flag_byte(sign: bool, zero: bool, aux: bool, parity: bool, carry: bool)
    ensures
        FlagSetBits(flag_byte(sign, zero, aux, parity, carry)).has(I8080ALUFlag::Sign) == sign,
        FlagSetBits(flag_byte(sign, zero, aux, parity, carry)).has(I8080ALUFlag::Zero) == zero,
        FlagSetBits(flag_byte(sign, zero, aux, parity, carry)).has(I8080ALUFlag::AuxiliaryCarry)
            == aux,
        FlagSetBits(flag_byte(sign, zero, aux, parity, carry)).has(I8080ALUFlag::Parity) == parity,
        FlagSetBits(flag_byte(sign, zero, aux, parity, carry)).has(I8080ALUFlag::Carry) == carry,
{
    let x = flag_byte(sign, zero, aux, parity, carry);
    assert((x & 128u8 == 128u8) == sign) by (bit_vector)
        requires
            x == flag_byte(sign, zero, aux, parity, carry),
    ;
    assert((x & 64u8 == 64u8) == zero) by (bit_vector)
        requires
            x == flag_byte(sign, zero, aux, parity, carry),
    ;
    assert((x & 16u8 == 16u8) == aux) by (bit_vector)
        requires
            x == flag_byte(sign, zero, aux, parity, carry),
    ;
    assert((x & 4u8 == 4u8) == parity) by (bit_vector)
        requires
            x == flag_byte(sign, zero, aux, parity, carry),
    ;
    assert((x & 1u8 == 1u8) == carry) by (bit_vector)
        requires
            x == flag_byte(sign, zero, aux, parity, carry),
    ;
}

/// The arithmetic-logic unit of the 8080.
#[derive(Debug, Clone, Copy)]
pub struct I8080ALU {
}

impl I8080ALU {
    pub fn new() -> (r: I8080ALU) {
        I8080ALU {  }
    }
}

impl ALU for I8080ALU {
    type Data = u8;
    type Control = I8080ALUControl;
    type Flag = I8080ALUFlag;
    type FlagSet = FlagSetBits;

    open spec fn spec_op(&self, code: I8080ALUControl, a: u8, b: u8) -> (u8, FlagSetBits) {
        (alu_result(code, a, b), alu_flags(code, a, b))
    }

    fn op(&self, code: I8080ALUControl, a: u8, b: u8) -> (r: (u8, FlagSetBits))
        ensures
            r.1.has(I8080ALUFlag::Sign) == (r.0 >= 128),
            r.1.has(I8080ALUFlag::Zero) == (r.0 == 0),
            r.1.has(I8080ALUFlag::AuxiliaryCarry) == alu_aux_carry(code, a, b),
            r.1.has(I8080ALUFlag::Parity) == even_parity(r.0),
            r.1.has(I8080ALUFlag::Carry) == alu_carry(code, a, b),
    {
        let (r, carry, aux): (u8, bool, bool) = match code {
            I8080ALUControl::Add => (
                a.wrapping_add(b),
                a as u16 + b as u16 > 255,
                (a & 15) as u16 + (b & 15) as u16 > 15,
            ),
            I8080ALUControl::Subtract => (a.wrapping_sub(b), a < b, (a & 15) >= (b & 15)),
            I8080ALUControl::BitAnd => (a & b, false, (a | b) & 8 != 0),
            I8080ALUControl::BitOr => (a | b, false, false),
            I8080ALUControl::BitXor => (a ^ b, false, false),
            I8080ALUControl::Increase => (a.wrapping_add(1), a == 255, a & 15 == 15),
            I8080ALUControl::Decrease => (a.wrapping_sub(1), a == 0, a & 15 != 0),
            I8080ALUControl::Right => ((a >> 1) | ((a & 1) << 7), a & 1 == 1, false),
        };
        let parity: bool = parity_is_even(r);
        let bits: u8 = (if r >= 128 { 128u8 } else { 0u8 }) | (if r == 0 { 64u8 } else { 0u8 }) | (
        if aux { 16u8 } else { 0u8 }) | (if parity { 4u8 } else { 0u8 }) | (if carry { 1u8 } else { 0u8 });
        proof {
            lemma_flag_byte(r >= 128, r == 0, aux, parity, carry);
        }
        (r, FlagSetBits(bits))
    }
}

/// `v + 1`, wrapping from 0xFFFF to 0.
pub open spec fn inc16(v: u16) -> u16 {
    ((v + 1) % 65536) as u16
}

/// `v - 1`, wrapping from 0 to 0xFFFF.
pub open spec fn dec16(v: u16) -> u16 {
    ((v + 65535) % 65536) as u16
}

/// The state of an 8080 machine: its register pairs, stack pointer, program
/// counter, and memory.
pub struct I8080State {
    pub psw: u16,
    pub bc: u16,
    pub de: u16,
    pub hl: u16,
    pub sp: u16,
    pub pc: u16,
    pub memory: Seq<u8>,
}

impl I8080State {
    /// The memory holds one byte for each 16-bit address.
    pub open spec fn valid(self) -> bool {
        self.memory.len() == 65536
    }

    pub open spec fn reg16(self, code: I8080RegisterCode16Bit) -> u16 {
        match code {
            I8080RegisterCode16Bit::PSW => self.psw,
            I8080RegisterCode16Bit::BC => self.bc,
            I8080RegisterCode16Bit::DE => self.de,
            I8080RegisterCode16Bit::HL => self.hl,
        }
    }

    pub open spec fn with_reg16(self, code: I8080RegisterCode16Bit, v: u16) -> I8080State {
        match code {
            I8080RegisterCode16Bit::PSW => I8080State { psw: v, ..self },
            I8080RegisterCode16Bit::BC => I8080State { bc: v, ..self },
            I8080RegisterCode16Bit::DE => I8080State { de: v, ..self },
            I8080RegisterCode16Bit::HL => I8080State { hl: v, ..self },
        }
    }

    pub open spec fn reg8(self, code: I8080RegisterCode8Bit) -> u8 {
        byte_of(self.reg16(code.pair()), code.spec_is_low())
    }

    /// The state after `v` is written into the half of the pair that `code` names.
    pub open spec fn with_reg8(self, code: I8080RegisterCode8Bit, v: u8) -> I8080State {
        self.with_reg16(code.pair(), with_byte(self.reg16(code.pair()), code.spec_is_low(), v))
    }

    pub open spec fn mem(self, address: u16) -> u8 {
        self.memory[address as int]
    }

    pub open spec fn with_mem(self, address: u16, data: u8) -> I8080State {
        I8080State { memory: self.memory.update(address as int, data), ..self }
    }

    /// The accumulator: the high byte of PSW.
    pub open spec fn acc(self) -> u8 {
        high_byte(self.psw)
    }

    /// The flag register: the low byte of PSW.
    pub open spec fn flags(self) -> FlagSetBits {
        FlagSetBits(low_byte(self.psw))
    }

    pub open spec fn flag_on(self, flag: I8080ALUFlag) -> bool {
        self.flags().has(flag)
    }

    /// The state after the flags that `mask` selects are taken from `bits`.
    pub open spec fn with_flags_masked(self, mask: FlagSetBits, bits: FlagSetBits) -> I8080State {
        I8080State { psw: with_byte(self.psw, true, merge_bits(low_byte(self.psw), mask.0, bits.0)), ..self }
    }

    /// The byte at the program counter, and the state with the counter advanced.
    pub open spec fn fetch(self) -> (I8080State, u8) {
        (I8080State { pc: inc16(self.pc), ..self }, self.mem(self.pc))
    }

    /// The state after the stack pointer is decremented and `data` stored there.
    pub open spec fn push(self, data: u8) -> I8080State {
        I8080State { sp: dec16(self.sp), memory: self.memory.update(dec16(self.sp) as int, data), ..self }
    }

    /// The byte at the stack pointer, and the state with the pointer incremented.
    pub open spec fn pop(self) -> (I8080State, u8) {
        (I8080State { sp: inc16(self.sp), ..self }, self.mem(self.sp))
    }

    pub open spec fn jump(self, address: u16) -> I8080State {
        I8080State { pc: address, ..self }
    }

    /// The state after a jump to `address` taken only when `flag` is on.
    pub open spec fn jump_on(self, address: u16, flag: I8080ALUFlag) -> I8080State {
        if self.flag_on(flag) {
            self.jump(address)
        } else {
            self
        }
    }

    /// The result and flags of `code` on the accumulator and `operand`.
    pub open spec fn alu_acc_op(self, code: I8080ALUControl, operand: u8) -> (u8, FlagSetBits) {
        (alu_result(code, self.acc(), operand), alu_flags(code, self.acc(), operand))
    }
}

/// The flag byte built from a list of flags is on exactly for the flags in
/// the list.
pub proof fn lemma_flags_mask_has(flags: Seq<I8080ALUFlag>, f: I8080ALUFlag)
    ensures
        FlagSetBits(flags_mask(flags)).has(f) <==> flags.contains(f),
    decreases flags.len(),
{
    lemma_mask_is_flag_bit(f);
    if flags.len() == 0 {
        let m = f.spec_mask();
        assert(is_flag_bit(m) ==> 0u8 & m != m) by (bit_vector);
    } else {
        let rest = flags.drop_last();
        let last = flags.last();
        lemma_flags_mask_has(rest, f);
        lemma_mask_is_flag_bit(last);
        lemma_set_clear_bit(flags_mask(rest), last.spec_mask(), f.spec_mask());
        if f == last {
            assert(flags[flags.len() - 1] == f);
        } else {
            if flags.contains(f) {
                let k = choose|k: int| 0 <= k < flags.len() && flags[k] == f;
                assert(rest[k] == f);
            }
            if rest.contains(f) {
                let k = choose|k: int| 0 <= k < rest.len() && rest[k] == f;
                assert(flags[k] == f);
            }
        }
    }
}

/// Committing flags through a mask changes only the flags in the mask: each
/// of them takes its computed value, every other flag keeps its value, and the
/// accumulator and the rest of the machine are untouched.
pub proof fn lemma_masked_flag_commit(
    model: I8080State,
    mask: FlagSetBits,
    computed: FlagSetBits,
    f: I8080ALUFlag,
)
    ensures
        model.with_flags_masked(mask, computed).flag_on(f) == if mask.has(f) {
            computed.has(f)
        } else {
            model.flag_on(f)
        },
        model.with_flags_masked(mask, computed).acc() == model.acc(),
        model.with_flags_masked(mask, computed).with_reg16(I8080RegisterCode16Bit::PSW, model.psw)
            == model,
{
    let x = merge_bits(low_byte(model.psw), mask.0, computed.0);
    lemma_byte_halves_alias(model.psw, x);
    lemma_merge_flags(FlagSetBits(low_byte(model.psw)), mask, computed, f);
}

/// Committing the flags of a list changes each listed flag to its computed
/// value and leaves every flag not in the list as it was.
pub proof fn lemma_commit_listed_flags(
    model: I8080State,
    committed: Seq<I8080ALUFlag>,
    computed: FlagSetBits,
    f: I8080ALUFlag,
)
    ensures
        model.with_flags_masked(FlagSetBits(flags_mask(committed)), computed).flag_on(f) == if committed.contains(f) {
            computed.has(f)
        } else {
            model.flag_on(f)
        },
{
    lemma_flags_mask_has(committed, f);
    lemma_masked_flag_commit(model, FlagSetBits(flags_mask(committed)), computed, f);
}

/// `model` after `data` is pushed byte by byte, first byte first.
pub open spec fn push_all(model: I8080State, data: Seq<u8>) -> I8080State
    decreases data.len(),
{
    if data.len() == 0 {
        model
    } else {
        push_all(model, data.drop_last()).push(data.last())
    }
}

/// The state after `n` pops from `model`, and the bytes popped in order.
pub open spec fn pop_n(model: I8080State, n: nat) -> (I8080State, Seq<u8>)
    decreases n,
{
    if n == 0 {
        (model, Seq::empty())
    } else {
        let (next, v) = model.pop();
        let (last, rest) = pop_n(next, (n - 1) as nat);
        (last, seq![v] + rest)
    }
}

/// The address `offset` bytes above `base`, wrapping modulo 65536.
pub open spec fn wrap_add(base: u16, offset: int) -> u16 {
    ((base + offset + 65536) % 65536) as u16
}

proof fn lemma_push_all_layout(model: I8080State, data: Seq<u8>)
    requires
        model.valid(),
        data.len() <= 65536,
    ensures
        push_all(model, data).valid(),
        push_all(model, data).sp == wrap_add(model.sp, -data.len()),
        forall|i: int|
            0 <= i < data.len() ==> #[trigger] push_all(model, data).mem(wrap_add(model.sp, -(i + 1)))
                == data[i],
    decreases data.len(),
{
    if data.len() > 0 {
        let rest = data.drop_last();
        let n = data.len() as int;
        lemma_push_all_layout(model, rest);
        let prev = push_all(model, rest);
        let addr = wrap_add(model.sp, -n);
        assert(dec16(prev.sp) == addr);
        assert forall|i: int| 0 <= i < data.len() implies #[trigger] push_all(model, data).mem(
            wrap_add(model.sp, -(i + 1)),
        ) == data[i] by {
            if i < n - 1 {
                assert(wrap_add(model.sp, -(i + 1)) != addr);
                assert(prev.mem(wrap_add(model.sp, -(i + 1))) == rest[i]);
            }
        }
    }
}

proof fn lemma_pop_n_reads(model: I8080State, n: nat)
    requires
        model.valid(),
    ensures
        pop_n(model, n).0 == (I8080State { sp: wrap_add(model.sp, n as int), ..model }),
        pop_n(model, n).1.len() == n,
        forall|k: int| 0 <= k < n ==> #[trigger] pop_n(model, n).1[k] == model.mem(wrap_add(model.sp, k)),
    decreases n,
{
    if n > 0 {
        let next = model.pop().0;
        lemma_pop_n_reads(next, (n - 1) as nat);
        let rest = pop_n(next, (n - 1) as nat).1;
        assert(wrap_add(next.sp, (n - 1) as int) == wrap_add(model.sp, n as int));
        assert forall|k: int| 0 <= k < n implies #[trigger] pop_n(model, n).1[k] == model.mem(
            wrap_add(model.sp, k),
        ) by {
            if k > 0 {
                assert(pop_n(model, n).1[k] == rest[k - 1]);
                assert(wrap_add(next.sp, k - 1) == wrap_add(model.sp, k));
            }
        }
    }
}

/// Pushing a sequence of bytes and then popping as many times gives the
/// bytes back in reverse order and leaves the stack pointer where it started.
pub proof fn lemma_stack_round_trip(model: I8080State, data: Seq<u8>)
    requires
        model.valid(),
        data.len() <= 65536,
    ensures
        pop_n(push_all(model, data), data.len()).1 == data.reverse(),
        pop_n(push_all(model, data), data.len()).0.sp == model.sp,
{
    let n = data.len() as int;
    let pushed = push_all(model, data);
    lemma_push_all_layout(model, data);
    lemma_pop_n_reads(pushed, data.len());
    let popped = pop_n(pushed, data.len()).1;
    assert forall|k: int| 0 <= k < n implies popped[k] == data.reverse()[k] by {
        assert(wrap_add(pushed.sp, k) == wrap_add(model.sp, -((n - 1 - k) + 1)));
        assert(pushed.mem(wrap_add(model.sp, -((n - 1 - k) + 1))) == data[n - 1 - k]);
    }
    assert(popped =~= data.reverse());
}

/// The state after `n` fetches from `model`, and the bytes fetched in order.
pub open spec fn fetch_n(model: I8080State, n: nat) -> (I8080State, Seq<u8>)
    decreases n,
{
    if n == 0 {
        (model, Seq::empty())
    } else {
        let (next, v) = model.fetch();
        let (last, rest) = fetch_n(next, (n - 1) as nat);
        (last, seq![v] + rest)
    }
}

/// `n` fetches read the `n` bytes from the program counter upward, wrapping
/// from 0xFFFF to 0, leave the program counter `n` further on (modulo
/// 65536), and change nothing else.
pub proof fn lemma_fetch_sequence(model: I8080State, n: nat)
    requires
        model.valid(),
    ensures
        fetch_n(model, n).0 == (I8080State { pc: wrap_add(model.pc, n as int), ..model }),
        fetch_n(model, n).1.len() == n,
        forall|k: int| 0 <= k < n ==> #[trigger] fetch_n(model, n).1[k] == model.mem(wrap_add(model.pc, k)),
    decreases n,
{
    if n > 0 {
        let next = model.fetch().0;
        lemma_fetch_sequence(next, (n - 1) as nat);
        let rest = fetch_n(next, (n - 1) as nat).1;
        assert(wrap_add(next.pc, (n - 1) as int) == wrap_add(model.pc, n as int));
        assert forall|k: int| 0 <= k < n implies #[trigger] fetch_n(model, n).1[k] == model.mem(
            wrap_add(model.pc, k),
        ) by {
            if k > 0 {
                assert(fetch_n(model, n).1[k] == rest[k - 1]);
                assert(wrap_add(next.pc, k - 1) == wrap_add(model.pc, k));
            }
        }
    }
}

} // verus!
