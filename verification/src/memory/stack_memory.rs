use vstd::prelude::*;
use super::memory_trait::MemoryTrait;
use super::Memory;

verus! {

/// Memory of a size fixed by the type: `N` cells, whatever size `new` is asked for.
pub struct StackMemory<T: Copy, const N: usize> {
    pub data: Memory<T>,
}

impl<T: Copy, const N: usize> MemoryTrait<T> for StackMemory<T, N> {
    open spec fn cells(&self) -> Seq<T> {
        self.data.data@
    }

    open spec fn size_for(size: usize) -> nat {
        N as nat
    }

    fn new(size: usize, default: T) -> (m: Self) {
        StackMemory { data: Memory::new(N, default) }
    }

    fn get_size(&self) -> (n: usize) {
        self.data.get_size()
    }

    fn read(&self, address: usize) -> (v: &T) {
        self.data.read(address)
    }

    fn read_n(&self, address: usize, n: usize) -> (v: &[T]) {
        self.data.read_n(address, n)
    }

    fn write(&mut self, address: usize, data: T) {
        self.data.write(address, data);
    }

    fn write_n(&mut self, address: usize, data: &[T]) {
        self.data.write_n(address, data);
    }
}

} // verus!
