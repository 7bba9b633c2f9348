use vstd::prelude::*;
use crate::cartridge::Cartridge;
use crate::memory::filled;
use super::rom::Mirroring;

verus! {

/// Mapper 3 (CNROM): fixed program ROM and 8 KiB character banks selected by writes to
/// $8000-$FFFF.
pub struct Mapper003CnRom {
    pub chr: Vec<u8>,
    /// Whether `chr` is the character RAM given to a cartridge without character ROM.
    pub chr_is_ram: bool,
    pub prg_rom: Vec<u8>,
    pub mirroring: Mirroring,
    pub bank_select: usize,
}

impl Mapper003CnRom {
    /// A cartridge without character ROM gets 8 KiB of character RAM.
    pub fn new(prg_rom: Vec<u8>, chr_rom: Vec<u8>, mirroring: Mirroring) -> (c: Mapper003CnRom)
        ensures
            c.prg_rom@ == prg_rom@,
            c.chr@ == (if chr_rom@.len() == 0 { Seq::new(0x2000, |i: int| 0u8) } else { chr_rom@ }),
            c.mirroring == mirroring,
            c.bank_select == 0,
            c.chr_is_ram == (chr_rom@.len() == 0),
    {
        let chr_is_ram = chr_rom.len() == 0;
        Mapper003CnRom {
            chr_is_ram,
            prg_rom,
            chr: if chr_rom.len() == 0 { filled(0x2000, 0u8) } else { chr_rom },
            mirroring,
            bank_select: 0,
        }
    }

    pub fn prg_bank_count(&self) -> (n: usize)
        ensures
            n == self.prg_rom@.len() / 0x4000,
    {
        self.prg_rom.len() / 0x4000
    }

    pub fn chr_bank_count(&self) -> (n: usize)
        ensures
            n == self.chr@.len() / 0x2000,
    {
        self.chr.len() / 0x2000
    }
}

/// The character-memory index of PPU address `addr` with bank `bank_select` of `count`.
pub open spec fn cnrom_chr_index(bank_select: usize, count: nat, addr: u16) -> int {
    (bank_select as int % count as int) * 0x2000 + addr as int
}

impl Cartridge for Mapper003CnRom {
    open spec fn prg_view(&self) -> Seq<u8> {
        self.prg_rom@
    }

    open spec fn chr_view(&self) -> Seq<u8> {
        self.chr@
    }

    open spec fn prg_readable(&self, addr: u16) -> bool {
        self.prg_rom@.len() > 0
    }

    open spec fn chr_readable(&self, addr: u16) -> bool {
        self.chr@.len() >= 0x2000
    }

    open spec fn chr_writable(&self, addr: u16) -> bool {
        (self.chr_is_ram || self.chr@.len() < 0x2000) ==> (addr as int) % 0x2000 < self.chr@.len()
    }

    /// The selected bank's byte for $0000-$1FFF; 0 beyond.
    fn chr_read(&mut self, addr: u16) -> (r: u8)
        ensures
            addr < 0x2000 ==> r == old(self).chr@[cnrom_chr_index(old(self).bank_select, old(self).chr@.len() / 0x2000, addr)],
            addr >= 0x2000 ==> r == 0,
            *final(self) == *old(self),
    {
        let len = self.chr.len();
        let bank_count = self.chr_bank_count();
        let bank = self.bank_select % bank_count;
        if (addr as usize) < 0x2000 {
            proof {
                assert(bank < bank_count);
                assert(bank * 0x2000 + 0x2000 <= bank_count * 0x2000) by (nonlinear_arith)
                    requires bank < bank_count;
                assert(bank_count * 0x2000 <= len) by (nonlinear_arith)
                    requires bank_count == len / 0x2000;
            }
            self.chr[bank * 0x2000 + addr as usize]
        } else {
            0
        }
    }

    /// Writes reach character RAM, and character memory of less than one bank; they land
    /// at the address modulo 8 KiB. Character ROM of a full bank ignores them.
    fn chr_write(&mut self, addr: u16, data: u8)
        ensures
            final(self).chr@ == (if old(self).chr_is_ram || old(self).chr@.len() < 0x2000 {
                old(self).chr@.update((addr as int) % 0x2000, data)
            } else {
                old(self).chr@
            }),
            final(self).prg_rom == old(self).prg_rom,
            final(self).bank_select == old(self).bank_select,
            final(self).mirroring == old(self).mirroring,
            final(self).chr_is_ram == old(self).chr_is_ram,
    {
        if self.chr_is_ram || self.chr_bank_count() == 0 {
            let i = addr as usize % 0x2000;
            if i < self.chr.len() {
                self.chr.set(i, data);
            }
        }
    }

    /// Program memory repeats over $8000-$FFFF; 0 below.
    fn prg_read(&mut self, addr: u16) -> (r: u8)
        ensures
            addr >= 0x8000 ==> r == old(self).prg_rom@[(addr - 0x8000) % (old(self).prg_rom@.len() as int)],
            addr < 0x8000 ==> r == 0,
            *final(self) == *old(self),
    {
        if addr >= 0x8000 {
            let mapped = (addr - 0x8000) as usize % self.prg_rom.len();
            self.prg_rom[mapped]
        } else {
            0
        }
    }

    /// `xxxx xxCC`: a write to $8000-$FFFF selects the character bank.
    fn prg_write(&mut self, addr: u16, data: u8)
        ensures
            final(self).bank_select == (if addr >= 0x8000 { (data % 4) as usize } else { old(self).bank_select }),
            final(self).chr == old(self).chr,
            final(self).prg_rom == old(self).prg_rom,
            final(self).mirroring == old(self).mirroring,
    {
        if addr >= 0x8000 {
            proof {
                assert(data & 0x03 == data % 4) by (bit_vector);
            }
            self.bank_select = (data & 0x03) as usize;
        }
    }

    fn mirroring(&self) -> (m: Mirroring)
        ensures
            m == self.mirroring,
    {
        self.mirroring
    }

    fn get_prg_rom(&self) -> (v: Vec<u8>) {
        self.prg_rom.clone()
    }

    fn get_chr_rom(&self) -> (v: Vec<u8>) {
        self.chr.clone()
    }
}

} // verus!
