use vstd::prelude::*;

verus! {

/// A fixed-size block of cells read and written by index.
pub trait MemoryTrait<T: Copy>: Sized {
    spec fn cells(&self) -> Seq<T>;

    /// How many cells a memory made for `size` cells has.
    spec fn size_for(size: usize) -> nat;

    fn new(size: usize, default: T) -> (m: Self)
        ensures
            m.cells() == Seq::new(Self::size_for(size), |i: int| default);

    fn get_size(&self) -> (n: usize)
        ensures
            n == self.cells().len();

    fn read(&self, address: usize) -> (v: &T)
        requires
            address < self.cells().len(),
        ensures
            *v == self.cells()[address as int];

    fn read_n(&self, address: usize, n: usize) -> (v: &[T])
        requires
            address + n <= self.cells().len(),
        ensures
            v@ == self.cells().subrange(address as int, address + n);

    fn write(&mut self, address: usize, data: T)
        requires
            address < old(self).cells().len(),
        ensures
            final(self).cells() == old(self).cells().update(address as int, data);

    fn write_n(&mut self, address: usize, data: &[T])
        requires
            address + data@.len() <= old(self).cells().len(),
        ensures
            final(self).cells() == old(self).cells().subrange(0, address as int) + data@
                + old(self).cells().subrange(address + data@.len(), old(self).cells().len() as int);
}

/// A read gives back what the last write to its address stored, and a write leaves every
/// other address as it was.
pub proof fn lemma_read_after_write<T>(cells: Seq<T>, address: int, data: T, other: int)
    requires
        0 <= address < cells.len(),
        0 <= other < cells.len(),
    ensures
        cells.update(address, data)[address] == data,
        other != address ==> cells.update(address, data)[other] == cells[other],
        cells.update(address, data).len() == cells.len(),
{
}

} // verus!
