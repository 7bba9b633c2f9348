use vstd::prelude::*;
use crate::rom::Mirroring;

pub mod nrom;

verus! {

/// A cartridge as the buses see it: program memory at $8000-$FFFF and character memory
/// at PPU $0000-$1FFF.
pub trait Cartridge: Sized {
    spec fn prg_view(&self) -> Seq<u8>;
    spec fn chr_view(&self) -> Seq<u8>;
    spec fn prg_readable(&self, addr: u16) -> bool;
    spec fn chr_readable(&self, addr: u16) -> bool;
    spec fn chr_writable(&self, addr: u16) -> bool;

    /// Reads a byte from CHR space.
    fn chr_read(&mut self, addr: u16) -> (r: u8)
        requires
            old(self).chr_readable(addr);

    /// Writes a byte into CHR space, where the cartridge has CHR RAM.
    fn chr_write(&mut self, addr: u16, data: u8)
        requires
            old(self).chr_writable(addr);

    /// Reads a byte from PRG space.
    fn prg_read(&mut self, addr: u16) -> (r: u8)
        requires
            old(self).prg_readable(addr),
        ensures
            *final(self) == *old(self);

    /// Writes a byte into PRG space, where the mapper takes writes.
    fn prg_write(&mut self, addr: u16, data: u8);

    /// The nametable mirroring.
    fn mirroring(&self) -> (m: Mirroring);

    /// A copy of the program memory.
    fn get_prg_rom(&self) -> (v: Vec<u8>)
        ensures
            v@ == self.prg_view();

    /// A copy of the character memory.
    fn get_chr_rom(&self) -> (v: Vec<u8>)
        ensures
            v@ == self.chr_view();
}

} // verus!
