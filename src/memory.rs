use vstd::prelude::*;

verus! {

/// Flat storage that maps every address to one data unit.
pub trait Memory {
    type Address;
    type Data;

    /// What the cell at `index` holds.
    spec fn cell(&self, index: Self::Address) -> Self::Data;

    fn read(&self, index: Self::Address) -> (r: Self::Data)
        ensures
            r == self.cell(index),
    ;

    fn store(&mut self, index: Self::Address, data: Self::Data)
        ensures
            final(self).cell(index) == data,
            forall|j: Self::Address| j != index ==> final(self).cell(j) == old(self).cell(j),
    ;
}

/// 65,536 bytes addressed by a 16-bit address: every address is in range.
#[derive(Debug)]
pub struct Memory8Bit64KB {
    bytes: [u8; 65536],
}

impl View for Memory8Bit64KB {
    type V = Seq<u8>;

    closed spec fn view(&self) -> Seq<u8> {
        self.bytes@
    }
}

/// The memory holds one byte for each 16-bit address.
pub broadcast proof fn lemma_memory_len(m: &Memory8Bit64KB)
    ensures
        #[trigger] m@.len() == 65536,
{
}

impl Memory8Bit64KB {
    /// Memory holding `bytes` from address 0 on, and zero above them.
    pub fn new(bytes: &[u8]) -> (r: Self)
        requires
            bytes@.len() <= 65536,
        ensures
            forall|i: int| 0 <= i < bytes@.len() ==> r@[i] == bytes@[i],
            forall|i: int| bytes@.len() <= i < 65536 ==> r@[i] == 0,
    {
        let mut mem = Memory8Bit64KB::default();
        let mut i: usize = 0;
        while i < bytes.len()
            invariant
                i <= bytes@.len() <= 65536,
                mem@.len() == 65536,
                forall|j: int| 0 <= j < i ==> mem@[j] == bytes@[j],
                forall|j: int| i <= j < 65536 ==> mem@[j] == 0,
            decreases bytes@.len() - i,
        {
            mem.store(i as u16, bytes[i]);
            i = i + 1;
        }
        mem
    }
}

impl Default for Memory8Bit64KB {
    fn default() -> (r: Self)
        ensures
            forall|i: int| 0 <= i < 65536 ==> r@[i] == 0,
    {
        Memory8Bit64KB { bytes: [0u8; 65536] }
    }
}

impl Memory for Memory8Bit64KB {
    type Address = u16;
    type Data = u8;

    open spec fn cell(&self, index: u16) -> u8 {
        self@[index as int]
    }

    fn read(&self, index: u16) -> (r: u8) {
        self.bytes[index as usize]
    }

    fn store(&mut self, index: u16, data: u8)
        ensures
            final(self)@ == old(self)@.update(index as int, data),
    {
        self.bytes[index as usize] = data;
        assert(self@ =~= old(self)@.update(index as int, data));
    }
}

} // verus!
