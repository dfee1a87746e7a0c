use vstd::prelude::*;

verus! {

/// The low byte of a 16-bit cell.
pub open spec fn low_byte(v: u16) -> u8 {
    (v & 0x00ffu16) as u8
}

/// The high byte of a 16-bit cell.
pub open spec fn high_byte(v: u16) -> u8 {
    (v >> 8u16) as u8
}

/// The byte of `v` that a view with selector `low` sees.
pub open spec fn byte_of(v: u16, low: bool) -> u8 {
    if low {
        low_byte(v)
    } else {
        high_byte(v)
    }
}

/// The cell `v` after writing `x` through the byte view with selector `low`.
pub open spec fn with_byte(v: u16, low: bool, x: u8) -> u16 {
    if low {
        (v & 0xff00u16) | (x as u16)
    } else {
        (v & 0x00ffu16) | ((x as u16) << 8u16)
    }
}

/// The cell `old` after writing `bits` through the bit mask `mask`.
pub open spec fn masked_merge(old: u16, mask: u16, bits: u16) -> u16 {
    (bits & mask) | (old & !mask)
}

/// Writing one byte half of a cell leaves the other half as it was, and
/// reading back the written half gives the byte written.
pub proof fn lemma_byte_halves_alias(v: u16, x: u8)
    ensures
        byte_of(with_byte(v, true, x), false) == byte_of(v, false),
        byte_of(with_byte(v, true, x), true) == x,
        byte_of(with_byte(v, false, x), true) == byte_of(v, true),
        byte_of(with_byte(v, false, x), false) == x,
{
    assert(high_byte((v & 0xff00u16) | (x as u16)) == high_byte(v)) by (bit_vector);
    assert(low_byte((v & 0xff00u16) | (x as u16)) == x) by (bit_vector);
    assert(low_byte((v & 0x00ffu16) | ((x as u16) << 8u16)) == low_byte(v)) by (bit_vector);
    assert(high_byte((v & 0x00ffu16) | ((x as u16) << 8u16)) == x) by (bit_vector);
}

/// A cell of one fixed width that can be read and loaded whole.
pub trait Register: Sized {
    fn load(&mut self, bits: Self)
        ensures
            *final(self) == bits,
    ;

    fn read(&self) -> (r: Self)
        ensures
            r == *self,
    ;
}

impl Register for u8 {
    fn load(&mut self, bits: u8) {
        *self = bits;
    }

    fn read(&self) -> (r: u8) {
        *self
    }
}

impl Register for u16 {
    fn load(&mut self, bits: u16) {
        *self = bits;
    }

    fn read(&self) -> (r: u16) {
        *self
    }
}

/// A name of a logical register of some architecture.
pub trait RegisterCode: Copy {
}

/// A set of registers addressed by codes of type `C`; its contents are
/// described through the view of the set.
pub trait RegisterSet<C: RegisterCode>: View {
    type Size;

    /// What the register named `code` holds in `model`.
    spec fn model_read_of(model: Self::V, code: C) -> Self::Size;

    /// `model` after `bits` is loaded into the register named `code`.
    spec fn model_load_of(model: Self::V, code: C, bits: Self::Size) -> Self::V;

    fn load_of(&mut self, code: C, bits: Self::Size)
        ensures
            final(self)@ == Self::model_load_of(old(self)@, code, bits),
    ;

    fn read_of(&self, code: C) -> (r: Self::Size)
        ensures
            r == Self::model_read_of(self@, code),
    ;
}

/// Reads a whole 16-bit cell.
pub struct Register16Reader<'a> {
    pub register: &'a u16,
}

impl<'a> Register16Reader<'a> {
    pub fn new(register: &'a u16) -> (r: Self)
        ensures
            *r.register == *register,
    {
        Register16Reader { register }
    }

    pub fn read(&self) -> (r: u16)
        ensures
            r == *self.register,
    {
        *self.register
    }
}

/// Reads one byte half of a 16-bit cell: the low one when `low` holds.
pub struct Register16In8Reader<'a> {
    pub register: &'a u16,
    pub low: bool,
}

impl<'a> Register16In8Reader<'a> {
    pub fn new(register: &'a u16, low: bool) -> (r: Self)
        ensures
            *r.register == *register,
            r.low == low,
    {
        Register16In8Reader { register, low }
    }

    pub fn read(&self) -> (r: u8)
        ensures
            r == byte_of(*self.register, self.low),
    {
        let t: u16 = *self.register;
        if self.low {
            (t & 0x00ffu16) as u8
        } else {
            (t >> 8u16) as u8
        }
    }
}

/// Reads and loads a whole 16-bit cell.
pub struct Register16Loader<'a> {
    pub register: &'a mut u16,
}

impl<'a> Register16Loader<'a> {
    /// What the cell holds now.
    pub open spec fn cell(&self) -> u16 {
        *self.register
    }

    pub fn new(register: &'a mut u16) -> (r: Self)
        ensures
            *r.register == *old(register),
            *final(register) == *final(r.register),
    {
        Register16Loader { register }
    }

    pub fn read(&self) -> (r: u16)
        ensures
            r == self.cell(),
    {
        *self.register
    }

    pub fn load(&mut self, bits: u16)
        ensures
            *final(self).register == bits,
            *final(final(self).register) == *final(old(self).register),
    {
        *self.register = bits;
    }
}

/// Reads and loads one byte half of a 16-bit cell, keeping the other half.
pub struct Register16In8Loader<'a> {
    pub register: &'a mut u16,
    pub low: bool,
}

impl<'a> Register16In8Loader<'a> {
    /// What the whole cell holds now.
    pub open spec fn cell(&self) -> u16 {
        *self.register
    }

    pub fn new(register: &'a mut u16, low: bool) -> (r: Self)
        ensures
            *r.register == *old(register),
            r.low == low,
            *final(register) == *final(r.register),
    {
        Register16In8Loader { register, low }
    }

    pub fn read(&self) -> (r: u8)
        ensures
            r == byte_of(self.cell(), self.low),
    {
        Register16In8Reader::new(&*self.register, self.low).read()
    }

    pub fn load(&mut self, bits: u8)
        ensures
            *final(self).register == with_byte(*old(self).register, old(self).low, bits),
            final(self).low == old(self).low,
            *final(final(self).register) == *final(old(self).register),
    {
        let cell: u16 = *self.register;
        let t: u16 = if self.low {
            (cell & 0xff00u16) | (bits as u16)
        } else {
            (cell & 0x00ffu16) | ((bits as u16) << 8u16)
        };
        *self.register = t;
    }
}

/// Reads and loads the bits of a 16-bit cell that `mask` selects; a load
/// leaves every other bit of the cell as it was.
pub struct MaskedRegisterLoader<'a> {
    pub loader: Register16Loader<'a>,
    pub mask: u16,
}

impl<'a> MaskedRegisterLoader<'a> {
    pub fn new(loader: Register16Loader<'a>, mask: u16) -> (r: Self)
        ensures
            r.loader == loader,
            r.mask == mask,
    {
        MaskedRegisterLoader { loader, mask }
    }

    pub fn read(&self) -> (r: u16)
        ensures
            r == self.loader.cell() & self.mask,
    {
        self.loader.read() & self.mask
    }

    pub fn load(&mut self, bits: u16)
        ensures
            *final(self).loader.register == masked_merge(*old(self).loader.register, old(self).mask, bits),
            final(self).mask == old(self).mask,
            *final(final(self).loader.register) == *final(old(self).loader.register),
    {
        let res: u16 = (bits & self.mask) | (self.loader.read() & !self.mask);
        self.loader.load(res);
    }
}

} // verus!
