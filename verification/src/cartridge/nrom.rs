use vstd::prelude::*;
use super::Cartridge;
use crate::memory::filled;
use crate::rom::Mirroring;

verus! {

/// Mapper 0: 16 or 32 KiB of program ROM (16 KiB mirrored) and 8 KiB of character ROM,
/// or character RAM when the image has none.
pub struct NromCart {
    pub chr: Vec<u8>,
    pub chr_is_ram: bool,
    pub prg_rom: Vec<u8>,
    pub mirroring: Mirroring,
}

/// The offset into program memory of CPU address `addr`; 16 KiB of it repeat.
pub open spec fn prg_offset(addr: u16, prg_len: nat) -> int {
    if prg_len == 0x4000 {
        (addr - 0x8000) % 0x4000
    } else {
        addr - 0x8000
    }
}

impl NromCart {
    pub fn new(prg_rom: Vec<u8>, chr_rom: Vec<u8>, mirroring: Mirroring) -> (c: NromCart)
        ensures
            c.prg_rom@ == prg_rom@,
            c.chr_is_ram == (chr_rom@.len() == 0),
            c.chr@ == (if chr_rom@.len() == 0 { Seq::new(0x2000, |i: int| 0u8) } else { chr_rom@ }),
            c.mirroring == mirroring,
    {
        let chr_is_ram = chr_rom.len() == 0;
        NromCart {
            prg_rom,
            chr: if chr_is_ram { filled(0x2000, 0u8) } else { chr_rom },
            mirroring,
            chr_is_ram,
        }
    }
}

impl Cartridge for NromCart {
    open spec fn prg_view(&self) -> Seq<u8> {
        self.prg_rom@
    }

    open spec fn chr_view(&self) -> Seq<u8> {
        self.chr@
    }

    open spec fn chr_readable(&self, addr: u16) -> bool {
        self.chr@.len() > 0
    }

    open spec fn chr_writable(&self, addr: u16) -> bool {
        self.chr@.len() > 0
    }

    open spec fn prg_readable(&self, addr: u16) -> bool {
        addr >= 0x8000 && 0 <= prg_offset(addr, self.prg_rom@.len()) < self.prg_rom@.len()
    }

    /// CHR addresses wrap around the character memory.
    fn chr_read(&mut self, addr: u16) -> (r: u8)
        ensures
            r == old(self).chr@[(addr as int) % (old(self).chr@.len() as int)],
            *final(self) == *old(self),
    {
        let i = addr as usize % self.chr.len();
        self.chr[i]
    }

    /// Only character RAM takes writes.
    fn chr_write(&mut self, addr: u16, data: u8)
        ensures
            final(self).chr@ == (if old(self).chr_is_ram {
                old(self).chr@.update((addr as int) % (old(self).chr@.len() as int), data)
            } else {
                old(self).chr@
            }),
            final(self).prg_rom == old(self).prg_rom,
            final(self).chr_is_ram == old(self).chr_is_ram,
            final(self).mirroring == old(self).mirroring,
    {
        if self.chr_is_ram {
            let i = addr as usize % self.chr.len();
            self.chr.set(i, data);
        }
    }

    fn prg_read(&mut self, addr: u16) -> (r: u8)
        ensures
            r == old(self).prg_rom@[prg_offset(addr, old(self).prg_rom@.len())],
            *final(self) == *old(self),
    {
        let offset = (addr - 0x8000) as usize;
        let offset = if self.prg_rom.len() == 0x4000 { offset % 0x4000 } else { offset };
        self.prg_rom[offset]
    }

    /// Program memory is read-only.
    fn prg_write(&mut self, addr: u16, data: u8)
        ensures
            *final(self) == *old(self),
    {
    }

    fn mirroring(&self) -> (m: Mirroring)
        ensures
            m == self.mirroring,
    {
        self.mirroring
    }

    fn get_prg_rom(&self) -> (v: Vec<u8>) {
        self.prg_rom.clone()
    }

    fn get_chr_rom(&self) -> (v: Vec<u8>) {
        self.chr.clone()
    }
}

/// NROM program memory: a 16 KiB image appears twice, at $8000 and again at $C000; a
/// 32 KiB image fills $8000-$FFFF in order.
pub proof fn lemma_nrom_prg_mirroring(addr: u16, prg_len: nat)
    requires
        0x8000 <= addr < 0xC000,
    ensures
        prg_len == 0x4000 ==> prg_offset(addr, prg_len) == addr - 0x8000
            && prg_offset((addr + 0x4000) as u16, prg_len) == addr - 0x8000,
        prg_len == 0x8000 ==> prg_offset(addr, prg_len) == addr - 0x8000
            && prg_offset((addr + 0x4000) as u16, prg_len) == addr - 0x4000,
{
}

} // verus!
