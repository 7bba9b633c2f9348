use vstd::prelude::*;

pub mod heap_memory;
pub mod memory_trait;
pub mod stack_memory;

verus! {

/// A block of `size` cells.
pub struct Memory<T: Copy> {
    pub size: usize,
    pub data: Vec<T>,
}

/// `n` copies of `default`.
pub fn filled<T: Copy>(size: usize, default: T) -> (v: Vec<T>)
    ensures
        v@ == Seq::new(size as nat, |i: int| default),
{
    let mut data: Vec<T> = Vec::new();
    let mut i: usize = 0;
    while i < size
        invariant
            i <= size,
            data@ == Seq::new(i as nat, |k: int| default),
        decreases size - i,
    {
        data.push(default);
        i = i + 1;
        assert(data@ =~= Seq::new(i as nat, |k: int| default));
    }
    data
}

impl<T: Copy> Memory<T> {
    pub open spec fn view(&self) -> Seq<T> {
        self.data@
    }

    pub fn new(size: usize, default: T) -> (m: Memory<T>)
        ensures
            m.size == size,
            m.data@ == Seq::new(size as nat, |i: int| default),
    {
        Memory { size, data: filled(size, default) }
    }

    pub fn get_size(&self) -> (n: usize)
        ensures
            n == self.data@.len(),
    {
        self.data.len()
    }

    pub fn read(&self, address: usize) -> (v: &T)
        requires
            address < self.data@.len(),
        ensures
            *v == self.data@[address as int],
    {
        &self.data[address]
    }

    pub fn read_n(&self, address: usize, n: usize) -> (v: &[T])
        requires
            address + n <= self.data@.len(),
        ensures
            v@ == self.data@.subrange(address as int, address + n),
    {
        let len = self.data.len();
        vstd::slice::slice_subrange(self.data.as_slice(), address, address + n)
    }

    pub fn write(&mut self, address: usize, data: T)
        requires
            address < old(self).data@.len(),
        ensures
            final(self).data@ == old(self).data@.update(address as int, data),
            final(self).size == old(self).size,
    {
        self.data.set(address, data);
    }

    pub fn write_n(&mut self, address: usize, data: &[T])
        requires
            address + data@.len() <= old(self).data@.len(),
        ensures
            final(self).data@ == old(self).data@.subrange(0, address as int) + data@
                + old(self).data@.subrange(address + data@.len(), old(self).data@.len() as int),
            final(self).size == old(self).size,
    {
        let ghost start = self.data@;
        let len = self.data.len();
        let mut i: usize = 0;
        while i < data.len()
            invariant
                len == start.len(),
                address + data@.len() <= start.len(),
                i <= data@.len(),
                self.data@.len() == start.len(),
                self.size == old(self).size,
                forall|k: int| 0 <= k < address ==> self.data@[k] == start[k],
                forall|k: int| 0 <= k < i ==> self.data@[address + k] == data@[k],
                forall|k: int| address + i <= k < start.len() ==> self.data@[k] == start[k],
            decreases data@.len() - i,
        {
            self.data.set(address + i, data[i]);
            i = i + 1;
        }
        assert(self.data@ =~= start.subrange(0, address as int) + data@
            + start.subrange(address + data@.len(), start.len() as int));
    }

    /// Writes `data` from `address`, as `write_n` does, taking the cells by value.
    pub fn write_vec(&mut self, address: usize, data: Vec<T>)
        requires
            address + data@.len() <= old(self).data@.len(),
        ensures
            final(self).data@ == old(self).data@.subrange(0, address as int) + data@
                + old(self).data@.subrange(address + data@.len(), old(self).data@.len() as int),
            final(self).size == old(self).size,
    {
        self.write_n(address, data.as_slice());
    }
}

} // verus!
