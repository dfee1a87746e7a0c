use vstd::prelude::*;

verus! {

/// A set of condition flags of type `F`.
pub trait FlagSet<F>: Sized {
    /// Whether `flag` is in the set.
    spec fn has(&self, flag: F) -> bool;

    fn change(&mut self, flag: F, set: bool)
        ensures
            final(self).has(flag) == set,
            forall|g: F| g != flag ==> final(self).has(g) == old(self).has(g),
    ;

    fn get_flag(&self, flag: F) -> (r: bool)
        ensures
            r == self.has(flag),
    ;

    fn set(&mut self, flag: F)
        ensures
            final(self).has(flag),
            forall|g: F| g != flag ==> final(self).has(g) == old(self).has(g),
    {
        self.change(flag, true);
    }

    fn reset(&mut self, flag: F)
        ensures
            !final(self).has(flag),
            forall|g: F| g != flag ==> final(self).has(g) == old(self).has(g),
    {
        self.change(flag, false);
    }

    fn all_on() -> (r: Self)
        ensures
            forall|f: F| r.has(f),
    ;

    fn all_off() -> (r: Self)
        ensures
            forall|f: F| !r.has(f),
    ;

    fn from_slice(flags: &[F]) -> (r: Self)
        where
            F: Copy,
        ensures
            forall|f: F| r.has(f) <==> flags@.contains(f),
    ;
}

/// A stateless unit that combines two operands under a control code into a
/// result and a set of flags.
pub trait ALU {
    type Data;
    type Control;
    type Flag;
    type FlagSet: FlagSet<Self::Flag>;

    /// The result and flags of `code` applied to `a` and `b`.
    spec fn spec_op(&self, code: Self::Control, a: Self::Data, b: Self::Data) -> (
        Self::Data,
        Self::FlagSet,
    );

    fn op(&self, code: Self::Control, a: Self::Data, b: Self::Data) -> (r: (
        Self::Data,
        Self::FlagSet,
    ))
        ensures
            r == self.spec_op(code, a, b),
    ;
}

/// The byte `old` after the bits of `mask` are taken from `update`.
pub open spec fn merge_bits(old: u8, mask: u8, update: u8) -> u8 {
    (update & mask) | (old & !mask)
}

/// Flags held as the bits of one byte.
#[derive(Debug, Clone, Copy, PartialEq, Eq, Structural)]
pub struct FlagSetBits(pub u8);

impl FlagSetBits {
    pub fn bits(&self) -> (r: u8)
        ensures
            r == self.0,
    {
        self.0
    }

    /// This set with the bits that `mask` selects taken from `update`.
    pub fn merge_masked(&self, mask: FlagSetBits, update: FlagSetBits) -> (r: FlagSetBits)
        ensures
            r.0 == merge_bits(self.0, mask.0, update.0),
    {
        FlagSetBits((update.0 & mask.0) | (self.0 & !mask.0))
    }
}

impl Default for FlagSetBits {
    fn default() -> (r: FlagSetBits)
        ensures
            r.0 == 0,
    {
        FlagSetBits(0)
    }
}

impl From<u8> for FlagSetBits {
    fn from(b: u8) -> (r: FlagSetBits) {
        FlagSetBits(b)
    }
}

impl vstd::std_specs::convert::FromSpecImpl<u8> for FlagSetBits {
    open spec fn obeys_from_spec() -> bool {
        true
    }

    open spec fn from_spec(b: u8) -> FlagSetBits {
        FlagSetBits(b)
    }
}

impl From<FlagSetBits> for u8 {
    fn from(b: FlagSetBits) -> (r: u8) {
        b.0
    }
}

impl vstd::std_specs::convert::FromSpecImpl<FlagSetBits> for u8 {
    open spec fn obeys_from_spec() -> bool {
        true
    }

    open spec fn from_spec(b: FlagSetBits) -> u8 {
        b.0
    }
}

} // verus!
