use vstd::prelude::*;
use crate::cartridge::Cartridge;
use crate::memory::filled;
use super::rom::Mirroring;

verus! {

/// The MMC1's serial port and registers.
#[derive(Clone, Copy, Debug, PartialEq, Eq, Structural)]
pub struct Mmc1Registers {
    pub shift_reg: u8,
    pub shift_count: u8,
    pub control: u8,
    pub chr_bank0: u8,
    pub chr_bank1: u8,
    pub prg_bank: u8,
}

/// The registers after the CPU writes `data` to mapper address `addr`: bit 7 resets the
/// shift register and selects PRG mode 3; otherwise bit 0 shifts in from the top, and the
/// fifth bit loads the register that `addr` selects ($8000 control, $A000 CHR bank 0,
/// $C000 CHR bank 1, $E000 PRG bank).
pub open spec fn mmc1_written(r: Mmc1Registers, addr: u16, data: u8) -> Mmc1Registers {
    if data >= 128 {
        Mmc1Registers { shift_reg: 0x10, shift_count: 0, control: r.control | 0x0C, ..r }
    } else {
        let sr = ((r.shift_reg >> 1u8) | ((data & 1) << 4u8)) as u8;
        if r.shift_count + 1 == 5 {
            let reg = (addr >> 13u16) & 0x03;
            let loaded = if reg == 0 {
                Mmc1Registers { control: sr, ..r }
            } else if reg == 1 {
                Mmc1Registers { chr_bank0: sr, ..r }
            } else if reg == 2 {
                Mmc1Registers { chr_bank1: sr, ..r }
            } else {
                Mmc1Registers { prg_bank: sr & 0x0F, ..r }
            };
            Mmc1Registers { shift_reg: 0x10, shift_count: 0, ..loaded }
        } else {
            Mmc1Registers { shift_reg: sr, shift_count: (r.shift_count + 1) as u8, ..r }
        }
    }
}

/// Mapper 1 (MMC1): switchable program and character banks loaded through a serial port.
pub struct Mmc1 {
    pub prg_rom: Vec<u8>,
    pub chr_rom: Vec<u8>,
    pub chr_ram: Vec<u8>,
    pub regs: Mmc1Registers,
    pub prg_ram: Vec<u8>,
}

/// The program-memory index of CPU address `addr` (at least $8000) under the registers.
pub open spec fn mmc1_prg_index(r: Mmc1Registers, prg_size: nat, addr: u16) -> int {
    let a = addr - 0x8000;
    let mode = (r.control / 4) % 4;
    if mode == 0 || mode == 1 {
        ((r.prg_bank / 2) * 2 * 0x4000 + a) % (prg_size as int)
    } else if mode == 2 {
        if a < 0x4000 { a } else { r.prg_bank * 0x4000 + (a - 0x4000) }
    } else {
        if a < 0x4000 { r.prg_bank * 0x4000 + a } else { prg_size - 0x4000 + (a - 0x4000) }
    }
}

/// The character-memory index of PPU address `addr` under the registers: two 4 KiB banks,
/// or one 8 KiB bank (bank 0 with its low bit cleared).
pub open spec fn mmc1_chr_index(r: Mmc1Registers, addr: u16) -> int {
    if r.control / 16 % 2 == 1 {
        let bank = if addr < 0x1000 { r.chr_bank0 } else { r.chr_bank1 };
        bank * 0x1000 + addr % 0x1000
    } else {
        (r.chr_bank0 / 2) * 2 * 0x1000 + addr
    }
}

/// The nametable mirroring in control bits 0-1.
pub open spec fn mmc1_mirroring(control: u8) -> Mirroring {
    let m = control % 4;
    if m == 0 {
        Mirroring::Single0
    } else if m == 1 {
        Mirroring::Single1
    } else if m == 2 {
        Mirroring::Vertical
    } else {
        Mirroring::Horizontal
    }
}

impl Mmc1 {
    /// Without character ROM the cartridge gets 8 KiB of character RAM; the registers start
    /// in PRG mode 3.
    pub fn new(prg_rom: Vec<u8>, chr_data: Vec<u8>, prg_ram_size: usize) -> (m: Mmc1)
        ensures
            m.prg_rom@ == prg_rom@,
            m.chr_rom@ == (if chr_data@.len() == 0 { Seq::new(0x2000, |i: int| 0u8) } else { chr_data@ }),
            m.chr_ram@.len() == (if chr_data@.len() == 0 { 0x2000nat } else { 0 }),
            m.prg_ram@ == Seq::new(prg_ram_size as nat, |i: int| 0u8),
            m.regs == (Mmc1Registers {
                shift_reg: 0x10, shift_count: 0, control: 0x0C, chr_bank0: 0, chr_bank1: 0, prg_bank: 0,
            }),
    {
        let has_chr_ram = chr_data.len() == 0;
        Mmc1 {
            prg_rom,
            chr_rom: if has_chr_ram { filled(0x2000, 0u8) } else { chr_data },
            chr_ram: if has_chr_ram { filled(0x2000, 0u8) } else { Vec::new() },
            regs: Mmc1Registers {
                shift_reg: 0x10,
                shift_count: 0,
                control: 0x0C,
                chr_bank0: 0,
                chr_bank1: 0,
                prg_bank: 0,
            },
            prg_ram: filled(prg_ram_size, 0u8),
        }
    }

    /// A write to the mapper's serial port.
    pub fn mmc1_write(&mut self, addr: u16, data: u8)
        requires
            old(self).regs.shift_count < 5,
        ensures
            final(self).regs == mmc1_written(old(self).regs, addr, data),
            final(self).regs.shift_count < 5,
            final(self).prg_rom == old(self).prg_rom,
            final(self).chr_rom == old(self).chr_rom,
            final(self).chr_ram == old(self).chr_ram,
            final(self).prg_ram == old(self).prg_ram,
    {
        self.regs = mmc1_register_write(self.regs, addr, data);
    }
}

fn mmc1_register_write(r: Mmc1Registers, addr: u16, data: u8) -> (n: Mmc1Registers)
    requires
        r.shift_count < 5,
    ensures
        n == mmc1_written(r, addr, data),
        n.shift_count < 5,
{
    if data & 0x80 != 0 {
        proof {
            assert(data & 0x80 != 0 <==> data >= 128) by (bit_vector);
        }
        return Mmc1Registers { shift_reg: 0x10, shift_count: 0, control: r.control | 0x0C, ..r };
    }
    proof {
        assert(data & 0x80 != 0 <==> data >= 128) by (bit_vector);
    }
    let bit = data & 1;
    let sr = (r.shift_reg >> 1) | (bit << 4);
    let count = r.shift_count + 1;
    if count == 5 {
        let reg = (addr >> 13) & 0x03;
        let loaded = if reg == 0 {
            Mmc1Registers { control: sr, ..r }
        } else if reg == 1 {
            Mmc1Registers { chr_bank0: sr, ..r }
        } else if reg == 2 {
            Mmc1Registers { chr_bank1: sr, ..r }
        } else {
            Mmc1Registers { prg_bank: sr & 0x0F, ..r }
        };
        Mmc1Registers { shift_reg: 0x10, shift_count: 0, ..loaded }
    } else {
        Mmc1Registers { shift_reg: sr, shift_count: count, ..r }
    }
}

impl Cartridge for Mmc1 {
    open spec fn prg_view(&self) -> Seq<u8> {
        self.prg_rom@
    }

    open spec fn chr_view(&self) -> Seq<u8> {
        self.chr_rom@
    }

    open spec fn prg_readable(&self, addr: u16) -> bool {
        let mode = (self.regs.control / 4) % 4;
        &&& addr >= 0x8000
        &&& self.prg_rom@.len() > 0
        &&& (mode == 3 ==> self.prg_rom@.len() >= 0x4000)
        &&& 0 <= mmc1_prg_index(self.regs, self.prg_rom@.len(), addr) < self.prg_rom@.len()
    }

    open spec fn chr_readable(&self, addr: u16) -> bool {
        if self.chr_ram@.len() > 0 {
            (addr as int) % 0x2000 < self.chr_ram@.len()
        } else {
            mmc1_chr_index(self.regs, addr) < self.chr_rom@.len()
        }
    }

    open spec fn chr_writable(&self, addr: u16) -> bool {
        self.chr_ram@.len() == 0 || (addr as int) % 0x2000 < self.chr_ram@.len()
    }

    /// Character RAM, where the cartridge has it, is read at the address modulo 8 KiB;
    /// otherwise the banked character ROM is read.
    fn chr_read(&mut self, addr: u16) -> (r: u8)
        ensures
            old(self).chr_ram@.len() > 0 ==> r == old(self).chr_ram@[(addr as int) % 0x2000],
            old(self).chr_ram@.len() == 0 ==> r == old(self).chr_rom@[mmc1_chr_index(old(self).regs, addr)],
            *final(self) == *old(self),
    {
        if self.chr_ram.len() > 0 {
            return self.chr_ram[addr as usize % 0x2000];
        }
        let mode_4k = self.regs.control / 16 % 2 == 1;
        let index = if mode_4k {
            let bank = if addr < 0x1000 { self.regs.chr_bank0 } else { self.regs.chr_bank1 };
            bank as usize * 0x1000 + (addr % 0x1000) as usize
        } else {
            (self.regs.chr_bank0 / 2) as usize * 2 * 0x1000 + addr as usize
        };
        self.chr_rom[index]
    }

    /// Character RAM takes writes; character ROM ignores them.
    fn chr_write(&mut self, addr: u16, data: u8)
        ensures
            final(self).chr_ram@ == (if old(self).chr_ram@.len() > 0 {
                old(self).chr_ram@.update((addr as int) % 0x2000, data)
            } else {
                old(self).chr_ram@
            }),
            final(self).chr_rom == old(self).chr_rom,
            final(self).regs == old(self).regs,
    {
        if self.chr_ram.len() > 0 {
            let i = addr as usize % 0x2000;
            if i < self.chr_ram.len() {
                self.chr_ram.set(i, data);
            }
        }
    }

    fn prg_read(&mut self, addr: u16) -> (r: u8)
        ensures
            r == old(self).prg_rom@[mmc1_prg_index(old(self).regs, old(self).prg_rom@.len(), addr)],
            *final(self) == *old(self),
    {
        let a = (addr - 0x8000) as usize;
        let prg_size = self.prg_rom.len();
        let mode = (self.regs.control / 4) % 4;
        let index = if mode == 0 || mode == 1 {
            ((self.regs.prg_bank / 2) as usize * 2 * 0x4000 + a) % prg_size
        } else if mode == 2 {
            if a < 0x4000 { a } else { self.regs.prg_bank as usize * 0x4000 + (a - 0x4000) }
        } else {
            if a < 0x4000 { self.regs.prg_bank as usize * 0x4000 + a } else { prg_size - 0x4000 + (a - 0x4000) }
        };
        self.prg_rom[index]
    }

    /// $6000-$7FFF is program RAM; $8000-$FFFF is the serial port.
    fn prg_write(&mut self, addr: u16, data: u8)
        ensures
            0x6000 <= addr < 0x8000 ==> final(self).prg_ram@ == (if (addr - 0x6000) < old(self).prg_ram@.len() {
                old(self).prg_ram@.update(addr - 0x6000, data)
            } else {
                old(self).prg_ram@
            }) && final(self).regs == old(self).regs,
            addr >= 0x8000 && old(self).regs.shift_count < 5 ==> final(self).regs == mmc1_written(old(self).regs, addr, data)
                && final(self).prg_ram == old(self).prg_ram,
            addr < 0x6000 ==> final(self).regs == old(self).regs && final(self).prg_ram == old(self).prg_ram,
            final(self).prg_rom == old(self).prg_rom,
            final(self).chr_rom == old(self).chr_rom,
    {
        if 0x6000 <= addr && addr < 0x8000 {
            let offset = (addr - 0x6000) as usize;
            if offset < self.prg_ram.len() {
                self.prg_ram.set(offset, data);
            }
        } else if addr >= 0x8000 && self.regs.shift_count < 5 {
            self.regs = mmc1_register_write(self.regs, addr, data);
        }
    }

    fn mirroring(&self) -> (m: Mirroring)
        ensures
            m == mmc1_mirroring(self.regs.control),
    {
        let m = self.regs.control % 4;
        if m == 0 {
            Mirroring::Single0
        } else if m == 1 {
            Mirroring::Single1
        } else if m == 2 {
            Mirroring::Vertical
        } else {
            Mirroring::Horizontal
        }
    }

    fn get_prg_rom(&self) -> (v: Vec<u8>) {
        self.prg_rom.clone()
    }

    fn get_chr_rom(&self) -> (v: Vec<u8>) {
        self.chr_rom.clone()
    }
}

/// Five writes without bit 7 load the register that the last address selects with the
/// five low bits, first write lowest; the serial port is then empty again.
pub proof fn lemma_five_writes_load_control(r: Mmc1Registers, d0: u8, d1: u8, d2: u8, d3: u8, d4: u8)
    requires
        r.shift_count == 0,
        r.shift_reg == 0x10,
        d0 < 128 && d1 < 128 && d2 < 128 && d3 < 128 && d4 < 128,
    ensures
        ({
            let r5 = mmc1_written(mmc1_written(mmc1_written(mmc1_written(mmc1_written(
                r, 0x8000, d0), 0x8000, d1), 0x8000, d2), 0x8000, d3), 0x8000, d4);
            &&& r5.control == (d0 & 1) | ((d1 & 1) << 1u8) | ((d2 & 1) << 2u8) | ((d3 & 1) << 3u8) | ((d4 & 1) << 4u8)
            &&& r5.shift_reg == 0x10
            &&& r5.shift_count == 0
        }),
{
    let s0 = r.shift_reg;
    let s1 = ((s0 >> 1u8) | ((d0 & 1) << 4u8)) as u8;
    let s2 = ((s1 >> 1u8) | ((d1 & 1) << 4u8)) as u8;
    let s3 = ((s2 >> 1u8) | ((d2 & 1) << 4u8)) as u8;
    let s4 = ((s3 >> 1u8) | ((d3 & 1) << 4u8)) as u8;
    let s5 = ((s4 >> 1u8) | ((d4 & 1) << 4u8)) as u8;
    assert((0x8000u16 >> 13u16) & 0x03 == 0) by (bit_vector);
    assert(s5 == (d0 & 1) | ((d1 & 1) << 1u8) | ((d2 & 1) << 2u8) | ((d3 & 1) << 3u8) | ((d4 & 1) << 4u8)) by (bit_vector)
        requires
            s1 == ((s0 >> 1u8) | ((d0 & 1) << 4u8)) as u8,
            s2 == ((s1 >> 1u8) | ((d1 & 1) << 4u8)) as u8,
            s3 == ((s2 >> 1u8) | ((d2 & 1) << 4u8)) as u8,
            s4 == ((s3 >> 1u8) | ((d3 & 1) << 4u8)) as u8,
            s0 == 0x10,
            s5 == ((s4 >> 1u8) | ((d4 & 1) << 4u8)) as u8;
}

/// Bits 0-1 of the MMC1 control register select the nametable mirroring: 0 one screen
/// (lower bank), 1 one screen (upper bank), 2 vertical, 3 horizontal; the other bits play
/// no part.
pub proof fn lemma_mmc1_mirroring_select(control: u8)
    ensures
        control & 3 == 0 ==> mmc1_mirroring(control) == Mirroring::Single0,
        control & 3 == 1 ==> mmc1_mirroring(control) == Mirroring::Single1,
        control & 3 == 2 ==> mmc1_mirroring(control) == Mirroring::Vertical,
        control & 3 == 3 ==> mmc1_mirroring(control) == Mirroring::Horizontal,
        mmc1_mirroring(control) == mmc1_mirroring(control & 3),
{
    assert(control & 3 == control % 4) by (bit_vector);
    assert((control & 3) % 4 == control % 4) by (bit_vector);
}

/// PRG banking. In mode 3 the last 16 KiB bank is fixed at $C000 and the bank register
/// selects the bank at $8000; in mode 2 the first bank is fixed at $8000 and the register
/// selects the bank at $C000; in modes 0 and 1 one 32 KiB bank is switched, chosen by the
/// register without its low bit.
pub proof fn lemma_mmc1_prg_banking(r: Mmc1Registers, prg_size: nat, addr: u16)
    requires
        addr >= 0x8000,
        prg_size >= 0x8000,
    ensures
        (r.control / 4) % 4 == 3 && addr >= 0xC000 ==> mmc1_prg_index(r, prg_size, addr) == prg_size - 0x10000 + addr,
        (r.control / 4) % 4 == 3 && addr < 0xC000 ==> mmc1_prg_index(r, prg_size, addr) == r.prg_bank * 0x4000 + (addr - 0x8000),
        (r.control / 4) % 4 == 2 && addr < 0xC000 ==> mmc1_prg_index(r, prg_size, addr) == addr - 0x8000,
        (r.control / 4) % 4 == 2 && addr >= 0xC000 ==> mmc1_prg_index(r, prg_size, addr) == r.prg_bank * 0x4000 + (addr - 0xC000),
        (r.control / 4) % 4 <= 1 ==> mmc1_prg_index(r, prg_size, addr)
            == mmc1_prg_index(Mmc1Registers { prg_bank: ((r.prg_bank / 2) * 2 + 1) as u8, ..r }, prg_size, addr),
        (r.control / 4) % 4 <= 1 ==> mmc1_prg_index(r, prg_size, addr)
            == ((r.prg_bank / 2) * 0x8000 + (addr - 0x8000)) % (prg_size as int),
{
}

} // verus!
