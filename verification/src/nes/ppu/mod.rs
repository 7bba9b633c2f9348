use vstd::prelude::*;
use crate::memory::filled;
use crate::nes::cartridge::rom::Mirroring;

pub mod dot_clock;
pub mod registers;
pub mod scheduler;

use dot_clock::{dot_step, step_dot, DotClock};
use registers::{ControlRegister, MaskRegister, ScrollRegister, StatusRegister};

verus! {

pub const PRIMARY_OAM_SIZE: usize = 256;
pub const RAM_SIZE: usize = 2048;
/// One byte (a palette index) per pixel of the 256x240 picture.
pub const FRAME_BUFFER_SIZE: usize = 61440;
/// The size of each nametable.
pub const NAME_TABLE_SIZE: u16 = 0x400;
/// The size of the palette memory.
pub const PALETTE_SIZE: usize = 0x20;

/// The palette index that a PPU address in $3F00-$3FFF selects: the range repeats every
/// 32 bytes, and entries $10, $14, $18 and $1C share the background entries below them.
pub open spec fn palette_index(addr: u16) -> usize {
    let index = (addr - 0x3F00) % 0x20;
    (if index == 0x10 || index == 0x14 || index == 0x18 || index == 0x1C {
        index - 0x10
    } else {
        index
    }) as usize
}

/// The offset into the 2 KiB of nametable RAM that a PPU address in $2000-$2FFF (or its
/// mirror $3000-$3EFF) reaches under `mirroring`.
pub open spec fn nametable_offset(addr: u16, mirroring: Mirroring) -> u16 {
    let index = (addr % 0x1000) as int;
    let table = index / 0x400;
    let offset = index % 0x400;
    (match mirroring {
        Mirroring::Vertical => if table == 0 || table == 2 { offset } else { offset + 0x400 },
        Mirroring::Horizontal => if table == 0 || table == 1 { offset } else { offset + 0x400 },
        Mirroring::FourScreen => index % 0x800,
        Mirroring::Single0 => offset,
        Mirroring::Single1 => offset + 0x400,
    }) as u16
}

/// The picture processing unit's memories: nametable RAM, palette and sprite attributes.
pub struct PPU {
    pub cycles: usize,
    pub scanline: usize,
    pub v_ram: Vec<u8>,
    pub palette_table: Vec<u8>,
    pub oam_addr: u8,
    pub oam_data: Vec<u8>,
    pub mirroring: Mirroring,
    pub ctrl_register: ControlRegister,
    pub mask_register: MaskRegister,
    pub status_register: StatusRegister,
    pub scroll_register: ScrollRegister,
    /// The $2007 read buffer.
    pub internal_data: u8,
    /// The last byte seen on the PPU's data lines, returned by write-only registers.
    pub last_byte_read: u8,
    /// The pattern memory the cartridge provides ($0000-$1FFF).
    pub pattern_table: Vec<u8>,
    /// Whether the pattern memory is writable (CHR RAM).
    pub chr_is_ram: bool,
    pub frame_is_odd: bool,
    /// Whether rendering was on at the start of the pre-render line.
    pub prerender_rendering_enabled: bool,
    pub nmi_fired_this_vblank: bool,
    /// Set by a $2002 read just before vertical blank starts, which then does not start.
    pub suppress_vblank: bool,
    /// An NMI owed since NMIs were enabled during vertical blank.
    pub instant_nmi_pending: bool,
    /// Where $2002 was last read: its line, and the dot after it.
    pub last_2002_read_scanline: usize,
    pub last_2002_read_dot: usize,
    /// An NMI raised for the processor and not yet taken by the bus.
    pub nmi_raised: bool,
    /// The picture, one palette index per pixel, row by row.
    pub frame_buffer: Vec<u8>,
}

/// The palette the PPU holds at power-up.
pub open spec fn startup_palette() -> Seq<u8> {
    seq![
        0x09u8, 0x01, 0x00, 0x01, 0x00, 0x02, 0x02, 0x0D, 0x08, 0x10, 0x08, 0x24, 0x00, 0x00,
        0x04, 0x2C, 0x09, 0x01, 0x34, 0x03, 0x00, 0x04, 0x00, 0x14, 0x08, 0x3A, 0x00, 0x02,
        0x00, 0x20, 0x2C, 0x08,
    ]
}

/// The effect of a $2007 write of `value` on the PPU `p` that becomes `q`: pattern memory
/// (when it is RAM), nametable RAM or palette takes the byte at the current address, and
/// the address steps by the control register's increment.
pub open spec fn memory_written(p: PPU, q: PPU, value: u8) -> bool {
    let addr = p.scroll_register.v % 0x4000;
    &&& (addr < 0x2000 ==> q.pattern_table@ == (if p.chr_is_ram {
        p.pattern_table@.update((addr as int) % (p.pattern_table@.len() as int), value)
    } else {
        p.pattern_table@
    }))
    &&& (0x2000 <= addr < 0x3F00 ==> q.v_ram@ == p.v_ram@.update(
        nametable_offset(addr as u16, p.mirroring) as int, value))
    &&& (0x3F00 <= addr ==> q.palette_table@ == p.palette_table@.update(palette_index(addr as u16) as int, value))
    &&& (addr >= 0x2000 ==> q.pattern_table@ == p.pattern_table@)
    &&& (!(0x2000 <= addr < 0x3F00) ==> q.v_ram@ == p.v_ram@)
    &&& (addr < 0x3F00 ==> q.palette_table@ == p.palette_table@)
    &&& q.scroll_register == (ScrollRegister {
        v: ((p.scroll_register.v + (if (p.ctrl_register.bits / 4) % 2 == 1 { 32int } else { 1int })) % 0x8000) as u16,
        ..p.scroll_register
    })
}

/// The effect of a $2007 read on the PPU `p` that becomes `q`, returning `r`: pattern and
/// nametable bytes come through the read buffer (its old content is returned); a palette
/// byte comes at once while the buffer takes the nametable byte underneath; the address
/// steps.
pub open spec fn memory_read(p: PPU, q: PPU, r: u8) -> bool {
    &&& memory_fetched(p, q, r)
    &&& q.scroll_register == address_stepped(p)
}

/// What a $2007 read returns (`r`) and leaves in the read buffer of `q`, from the PPU `p`.
pub open spec fn memory_fetched(p: PPU, q: PPU, r: u8) -> bool {
    let addr = p.scroll_register.v % 0x4000;
    &&& (addr < 0x3F00 ==> r == p.internal_data)
    &&& (addr >= 0x3F00 ==> r == p.palette_table@[palette_index(addr as u16) as int])
    &&& (addr < 0x2000 ==> q.internal_data == p.pattern_table@[(addr as int) % (p.pattern_table@.len() as int)])
    &&& (0x2000 <= addr < 0x3F00 ==> q.internal_data == p.v_ram@[nametable_offset(addr as u16, p.mirroring) as int])
    &&& (addr >= 0x3F00 ==> q.internal_data == p.v_ram@[nametable_offset((addr - 0x1000) as u16, p.mirroring) as int])
}

/// The scroll latches after a $2007 access: the VRAM address steps by 1, or by 32 when
/// the control register selects it.
pub open spec fn address_stepped(p: PPU) -> ScrollRegister {
    ScrollRegister {
        v: ((p.scroll_register.v + (if (p.ctrl_register.bits / 4) % 2 == 1 { 32int } else { 1int })) % 0x8000) as u16,
        ..p.scroll_register
    }
}

impl PPU {
    /// The PPU's timing state.
    pub open spec fn clock_view(&self) -> DotClock {
        DotClock {
            scanline: self.scanline,
            cycles: self.cycles,
            status: self.status_register.bits,
            frame_is_odd: self.frame_is_odd,
            prerender_rendering_enabled: self.prerender_rendering_enabled,
            nmi_fired_this_vblank: self.nmi_fired_this_vblank,
            suppress_vblank: self.suppress_vblank,
            instant_nmi_pending: self.instant_nmi_pending,
        }
    }

    pub open spec fn wf(&self) -> bool {
        &&& self.v_ram@.len() == RAM_SIZE
        &&& self.frame_buffer@.len() == FRAME_BUFFER_SIZE
        &&& self.palette_table@.len() == PALETTE_SIZE
        &&& self.oam_data@.len() == PRIMARY_OAM_SIZE
        &&& self.scroll_register.wf()
        &&& self.scanline <= 261
        &&& self.cycles <= 340
        &&& 0 < self.pattern_table@.len() <= 0x10000
    }

    /// The state that power-up and reset give: cleared nametable RAM, sprite memory and
    /// picture, the start-up palette, cleared registers, on the pre-render line.
    pub open spec fn at_power_up(&self) -> bool {
        &&& self.cycles == 0
        &&& self.scanline == 261
        &&& self.oam_addr == 0
        &&& self.v_ram@ == Seq::new(RAM_SIZE as nat, |i: int| 0u8)
        &&& self.oam_data@ == Seq::new(PRIMARY_OAM_SIZE as nat, |i: int| 0u8)
        &&& self.frame_buffer@ == Seq::new(FRAME_BUFFER_SIZE as nat, |i: int| 0u8)
        &&& self.ctrl_register.bits == 0
        &&& self.mask_register.bits == 0
        &&& self.status_register.bits == 0
        &&& self.scroll_register == (ScrollRegister { v: 0, t: 0, x: 0, w: false })
        &&& self.palette_table@ == startup_palette()
        &&& self.internal_data == 0
        &&& self.last_byte_read == 0
        &&& !self.frame_is_odd
        &&& !self.prerender_rendering_enabled
        &&& !self.nmi_fired_this_vblank
        &&& !self.suppress_vblank
        &&& !self.instant_nmi_pending
        &&& self.last_2002_read_scanline == 0
        &&& self.last_2002_read_dot == 0
        &&& !self.nmi_raised
    }

    /// A PPU at power-up: cleared RAM, sprite memory and picture, the start-up palette, on
    /// the pre-render line.
    pub fn new() -> (ppu: PPU)
        ensures
            ppu.wf(),
            ppu.at_power_up(),
            ppu.frame_buffer@ == Seq::new(256 * 240, |i: int| 0u8),
            ppu.v_ram@ == Seq::new(RAM_SIZE as nat, |i: int| 0u8),
            ppu.oam_data@ == Seq::new(PRIMARY_OAM_SIZE as nat, |i: int| 0u8),
            ppu.palette_table@ == startup_palette(),
            ppu.mirroring == Mirroring::Vertical,
            ppu.pattern_table@ == Seq::new(0x2000, |i: int| 0u8),
            ppu.chr_is_ram,
    {
        let palette_table: Vec<u8> = vec![
            0x09, 0x01, 0x00, 0x01, 0x00, 0x02, 0x02, 0x0D, 0x08, 0x10, 0x08, 0x24, 0x00, 0x00,
            0x04, 0x2C, 0x09, 0x01, 0x34, 0x03, 0x00, 0x04, 0x00, 0x14, 0x08, 0x3A, 0x00, 0x02,
            0x00, 0x20, 0x2C, 0x08,
        ];
        PPU {
            cycles: 0,
            scanline: 261,
            v_ram: filled(RAM_SIZE, 0u8),
            palette_table,
            oam_addr: 0,
            oam_data: filled(PRIMARY_OAM_SIZE, 0u8),
            mirroring: Mirroring::Vertical,
            ctrl_register: ControlRegister::new(),
            mask_register: MaskRegister::new(),
            status_register: StatusRegister::new(),
            scroll_register: ScrollRegister::new(),
            internal_data: 0,
            last_byte_read: 0,
            pattern_table: filled(0x2000, 0u8),
            chr_is_ram: true,
            frame_is_odd: false,
            prerender_rendering_enabled: false,
            nmi_fired_this_vblank: false,
            suppress_vblank: false,
            instant_nmi_pending: false,
            last_2002_read_scanline: 0,
            last_2002_read_dot: 0,
            nmi_raised: false,
            frame_buffer: filled(FRAME_BUFFER_SIZE, 0u8),
        }
    }

    /// Returns the PPU to its power-up state; the cartridge's pattern memory and its
    /// mirroring stay.
    pub fn reset(&mut self)
        requires
            old(self).wf(),
        ensures
            final(self).wf(),
            final(self).at_power_up(),
            final(self).pattern_table == old(self).pattern_table,
            final(self).chr_is_ram == old(self).chr_is_ram,
            final(self).mirroring == old(self).mirroring,
    {
        self.v_ram = filled(RAM_SIZE, 0u8);
        self.cycles = 0;
        self.scanline = 261;
        self.instant_nmi_pending = false;
        self.suppress_vblank = false;
        self.nmi_fired_this_vblank = false;
        self.prerender_rendering_enabled = false;
        self.last_2002_read_dot = 0;
        self.last_2002_read_scanline = 0;
        self.internal_data = 0;
        self.frame_is_odd = false;
        self.last_byte_read = 0;
        self.ctrl_register = ControlRegister::new();
        self.mask_register = MaskRegister::new();
        self.status_register = StatusRegister::new();
        self.scroll_register = ScrollRegister::new();
        self.frame_buffer = filled(FRAME_BUFFER_SIZE, 0u8);
        self.palette_table = vec![
            0x09, 0x01, 0x00, 0x01, 0x00, 0x02, 0x02, 0x0D, 0x08, 0x10, 0x08, 0x24, 0x00, 0x00,
            0x04, 0x2C, 0x09, 0x01, 0x34, 0x03, 0x00, 0x04, 0x00, 0x14, 0x08, 0x3A, 0x00, 0x02,
            0x00, 0x20, 0x2C, 0x08,
        ];
        self.oam_addr = 0;
        self.oam_data = filled(PRIMARY_OAM_SIZE, 0u8);
        self.nmi_raised = false;
    }

    /// The palette entry that `addr` reaches.
    pub fn mirror_palette_addr(&self, addr: u16) -> (index: usize)
        requires
            addr >= 0x3F00,
        ensures
            index == palette_index(addr),
            index < PALETTE_SIZE,
    {
        let index = (addr - 0x3F00) % 0x20;
        let index = if index == 0x10 || index == 0x14 || index == 0x18 || index == 0x1C {
            index - 0x10
        } else {
            index
        };
        index as usize
    }

    /// The nametable RAM offset that `addr` reaches under the cartridge's mirroring.
    pub fn mirror_ram_addr(&self, addr: u16) -> (offset: u16)
        requires
            addr & 0x2FFF >= 0x2000,
        ensures
            offset == nametable_offset(addr, self.mirroring),
            (offset as usize) < RAM_SIZE,
    {
        let mirrored_addr = addr & 0x2FFF;
        proof {
            assert(addr & 0x2FFF >= 0x2000 ==> (addr & 0x2FFF) - 0x2000 == addr % 0x1000) by (bit_vector);
        }
        let index = mirrored_addr - 0x2000;
        let table = index / NAME_TABLE_SIZE;
        let offset = index % NAME_TABLE_SIZE;
        match self.mirroring {
            Mirroring::Vertical => {
                if table == 0 || table == 2 { offset } else { offset + NAME_TABLE_SIZE }
            },
            Mirroring::Horizontal => {
                if table == 0 || table == 1 { offset } else { offset + NAME_TABLE_SIZE }
            },
            Mirroring::FourScreen => index % 0x800,
            Mirroring::Single0 => offset,
            Mirroring::Single1 => offset + NAME_TABLE_SIZE,
        }
    }

    /// A CPU write to $2000: the control byte; its low two bits select the base nametable
    /// in `t`. Turning NMIs on inside vertical blank (lines 241-260, past dot 0) owes an NMI,
    /// which the next dot raises.
    pub fn write_to_ctrl(&mut self, value: u8)
        requires
            old(self).wf(),
        ensures
            final(self).wf(),
            final(self).ctrl_register.bits == value,
            final(self).scroll_register == (ScrollRegister {
                t: ((old(self).scroll_register.t % 0x400) + (value % 4) as int * 0x400
                    + (old(self).scroll_register.t / 0x1000) * 0x1000) as u16,
                ..old(self).scroll_register
            }),
            final(self).instant_nmi_pending == (old(self).instant_nmi_pending || (old(self).ctrl_register.bits < 128
                && value >= 128 && 241 <= old(self).scanline <= 260 && old(self).cycles > 0)),
            final(self).clock_view() == (DotClock { instant_nmi_pending: final(self).instant_nmi_pending, ..old(self).clock_view() }),
            final(self).v_ram == old(self).v_ram,
            final(self).palette_table == old(self).palette_table,
            final(self).pattern_table == old(self).pattern_table,
            final(self).oam_data == old(self).oam_data,
            final(self).oam_addr == old(self).oam_addr,
            final(self).mask_register == old(self).mask_register,
            final(self).last_2002_read_scanline == old(self).last_2002_read_scanline,
            final(self).last_2002_read_dot == old(self).last_2002_read_dot,
            final(self).nmi_raised == old(self).nmi_raised,
            final(self).internal_data == old(self).internal_data,
            final(self).last_byte_read == old(self).last_byte_read,
            final(self).mirroring == old(self).mirroring,
            final(self).chr_is_ram == old(self).chr_is_ram,
    {
        let prev_nmi_enable = self.ctrl_register.generate_nmi();
        self.ctrl_register.update(value);
        if !prev_nmi_enable && value >= 0b1000_0000 && self.scanline >= 241 && self.cycles > 0
            && self.scanline <= 260 && self.cycles <= 340 {
            self.instant_nmi_pending = true;
        }
        let t = self.scroll_register.t;
        self.scroll_register.t = (t % 0x400) + (value % 4) as u16 * 0x400 + (t / 0x1000) * 0x1000;
    }

    /// Installs the cartridge's pattern memory.
    pub fn load_pattern_table(&mut self, chr: Vec<u8>, chr_is_ram: bool)
        requires
            old(self).wf(),
            0 < chr@.len() <= 0x10000,
        ensures
            final(self).wf(),
            final(self).pattern_table@ == chr@,
            final(self).chr_is_ram == chr_is_ram,
            final(self).mirroring == old(self).mirroring,
            final(self).ctrl_register == old(self).ctrl_register,
            final(self).oam_data == old(self).oam_data,
            final(self).v_ram == old(self).v_ram,
            final(self).nmi_raised == old(self).nmi_raised,
            final(self).clock_view() == old(self).clock_view(),
    {
        self.pattern_table = chr;
        self.chr_is_ram = chr_is_ram;
    }

    /// A write through $2007 at the current VRAM address, which then steps by the control
    /// register's increment. Pattern memory takes the write only when it is RAM.
    pub fn write_memory(&mut self, value: u8)
        requires
            old(self).wf(),
        ensures
            final(self).wf(),
            memory_written(*old(self), *final(self), value),
            final(self).clock_view() == old(self).clock_view(),
            final(self).internal_data == old(self).internal_data,
            final(self).last_byte_read == old(self).last_byte_read,
            final(self).last_2002_read_scanline == old(self).last_2002_read_scanline,
            final(self).last_2002_read_dot == old(self).last_2002_read_dot,
            final(self).nmi_raised == old(self).nmi_raised,
            final(self).mirroring == old(self).mirroring,
            final(self).chr_is_ram == old(self).chr_is_ram,
            final(self).oam_data == old(self).oam_data,
            final(self).oam_addr == old(self).oam_addr,
            final(self).ctrl_register == old(self).ctrl_register,
            final(self).mask_register == old(self).mask_register,
            final(self).status_register == old(self).status_register,
    {
        let addr = self.scroll_register.get_addr();
        if addr < 0x2000 {
            if self.chr_is_ram {
                let i = addr as usize % self.pattern_table.len();
                self.pattern_table.set(i, value);
            }
        } else if addr < 0x3F00 {
            proof {
                assert(0x2000 <= addr < 0x3F00 ==> addr & 0x2FFF >= 0x2000) by (bit_vector);
            }
            let mirrored = self.mirror_ram_addr(addr);
            self.v_ram.set(mirrored as usize, value);
        } else {
            let i = self.mirror_palette_addr(addr);
            self.palette_table.set(i, value);
        }
        let inc = self.ctrl_register.increment_ram_addr();
        self.scroll_register.increment_addr(inc);
    }

    /// A read through $2007: pattern and nametable bytes come through the read buffer (the
    /// previous fetch is returned); palette bytes come at once, while the buffer takes the
    /// nametable byte underneath. With `increment` the address then steps; without it, it
    /// stays.
    pub fn read_memory(&mut self, increment: bool) -> (r: u8)
        requires
            old(self).wf(),
        ensures
            final(self).wf(),
            memory_fetched(*old(self), *final(self), r),
            increment ==> final(self).scroll_register == address_stepped(*old(self)),
            !increment ==> final(self).scroll_register == old(self).scroll_register,
            final(self).clock_view() == old(self).clock_view(),
            final(self).last_byte_read == old(self).last_byte_read,
            final(self).last_2002_read_scanline == old(self).last_2002_read_scanline,
            final(self).last_2002_read_dot == old(self).last_2002_read_dot,
            final(self).nmi_raised == old(self).nmi_raised,
            final(self).mask_register == old(self).mask_register,
            final(self).oam_addr == old(self).oam_addr,
            final(self).mirroring == old(self).mirroring,
            final(self).chr_is_ram == old(self).chr_is_ram,
            final(self).v_ram == old(self).v_ram,
            final(self).palette_table == old(self).palette_table,
            final(self).pattern_table == old(self).pattern_table,
            final(self).oam_data == old(self).oam_data,
            final(self).ctrl_register == old(self).ctrl_register,
            final(self).status_register == old(self).status_register,
    {
        let addr = self.scroll_register.get_addr();
        let result = if addr < 0x2000 {
            let r = self.internal_data;
            self.internal_data = self.pattern_table[addr as usize % self.pattern_table.len()];
            r
        } else if addr < 0x3F00 {
            proof {
                assert(0x2000 <= addr < 0x3F00 ==> addr & 0x2FFF >= 0x2000) by (bit_vector);
            }
            let r = self.internal_data;
            self.internal_data = self.v_ram[self.mirror_ram_addr(addr) as usize];
            r
        } else {
            let r = self.palette_table[self.mirror_palette_addr(addr)];
            proof {
                assert(0x3F00 <= addr < 0x4000 ==> ((addr - 0x1000) as u16) & 0x2FFF >= 0x2000
                    && ((addr - 0x1000) as u16) % 0x1000 == addr % 0x1000) by (bit_vector);
            }
            self.internal_data = self.v_ram[self.mirror_ram_addr(addr - 0x1000) as usize];
            r
        };
        if increment {
            let inc = self.ctrl_register.increment_ram_addr();
            self.scroll_register.increment_addr(inc);
        }
        result
    }

    /// A CPU read of a PPU register ($2000-$3FFF, mirrored every 8 bytes). $2002 returns
    /// the status bits over the open-bus low bits, ends vertical blank and the write
    /// toggle, and records where it was read (a read just before vertical blank starts
    /// suppresses it); $2004 returns sprite memory; $2007 reads VRAM; write-only registers
    /// give the last byte on the bus.
    pub fn read_register(&mut self, addr: u16) -> (r: u8)
        requires
            old(self).wf(),
            0x2000 <= addr <= 0x3FFF,
        ensures
            final(self).wf(),
            addr % 8 == 2 ==> {
                &&& r == (old(self).status_register.bits / 32) * 32 + old(self).last_byte_read % 32
                &&& final(self).status_register.bits == old(self).status_register.bits % 128
                &&& final(self).scroll_register == (ScrollRegister {
                    w: old(self).scroll_register.w && old(self).status_register.bits < 128,
                    ..old(self).scroll_register
                })
                &&& final(self).last_byte_read == r
                &&& final(self).last_2002_read_scanline == old(self).scanline
                &&& final(self).last_2002_read_dot == old(self).cycles + 1
                &&& final(self).suppress_vblank == (old(self).suppress_vblank || (old(self).scanline == 241
                    && old(self).cycles == 0 && old(self).status_register.bits < 128))
                &&& final(self).internal_data == old(self).internal_data
            },
            addr % 8 == 4 ==> r == old(self).oam_data@[old(self).oam_addr as int]
                && final(self).last_byte_read == r,
            addr % 8 == 7 ==> memory_read(*old(self), *final(self), r) && final(self).last_byte_read == r,
            (addr % 8 == 0 || addr % 8 == 1 || addr % 8 == 3 || addr % 8 == 5 || addr % 8 == 6)
                ==> r == old(self).last_byte_read && final(self).last_byte_read == r,
            addr % 8 != 2 ==> final(self).clock_view() == old(self).clock_view()
                && final(self).last_2002_read_scanline == old(self).last_2002_read_scanline
                && final(self).last_2002_read_dot == old(self).last_2002_read_dot,
            addr % 8 != 2 && addr % 8 != 7 ==> final(self).scroll_register == old(self).scroll_register
                && final(self).internal_data == old(self).internal_data,
            final(self).v_ram == old(self).v_ram,
            final(self).palette_table == old(self).palette_table,
            final(self).pattern_table == old(self).pattern_table,
            final(self).oam_data == old(self).oam_data,
            final(self).oam_addr == old(self).oam_addr,
            final(self).ctrl_register == old(self).ctrl_register,
            final(self).mask_register == old(self).mask_register,
            final(self).scanline == old(self).scanline,
            final(self).cycles == old(self).cycles,
            final(self).frame_is_odd == old(self).frame_is_odd,
            final(self).prerender_rendering_enabled == old(self).prerender_rendering_enabled,
            final(self).nmi_fired_this_vblank == old(self).nmi_fired_this_vblank,
            final(self).instant_nmi_pending == old(self).instant_nmi_pending,
            final(self).nmi_raised == old(self).nmi_raised,
            final(self).mirroring == old(self).mirroring,
            final(self).chr_is_ram == old(self).chr_is_ram,
    {
        let reg = addr % 8;
        if reg == 2 {
            let status = self.status_register.bits();
            let had_vblank = status >= 0b1000_0000;
            let result = (status / 32) * 32 + self.last_byte_read % 32;
            self.last_2002_read_scanline = self.scanline;
            self.last_2002_read_dot = self.cycles + 1;
            if had_vblank {
                self.status_register.reset_vblank_status();
                self.scroll_register.reset_latch();
            }
            self.last_byte_read = result;
            if self.scanline == 241 && self.cycles == 0 && !had_vblank {
                self.suppress_vblank = true;
            }
            result
        } else if reg == 4 {
            let value = self.oam_data[self.oam_addr as usize];
            self.last_byte_read = value;
            value
        } else if reg == 7 {
            let value = self.read_memory(true);
            self.last_byte_read = value;
            value
        } else {
            self.last_byte_read
        }
    }

    /// A CPU write to a PPU register ($2000-$3FFF, mirrored every 8 bytes).
    pub fn write_register(&mut self, addr: u16, value: u8)
        requires
            old(self).wf(),
            0x2000 <= addr <= 0x3FFF,
        ensures
            final(self).wf(),
            final(self).last_byte_read == value,
            addr % 8 == 0 ==> final(self).ctrl_register.bits == value
                && final(self).instant_nmi_pending == (old(self).instant_nmi_pending
                    || (old(self).ctrl_register.bits < 128 && value >= 128
                        && 241 <= old(self).scanline <= 260 && old(self).cycles > 0))
                && final(self).scroll_register == (ScrollRegister {
                    t: ((old(self).scroll_register.t % 0x400) + (value % 4) as int * 0x400
                        + (old(self).scroll_register.t / 0x1000) * 0x1000) as u16,
                    ..old(self).scroll_register
                }),
            addr % 8 != 0 ==> final(self).ctrl_register == old(self).ctrl_register
                && final(self).instant_nmi_pending == old(self).instant_nmi_pending,
            addr % 8 == 1 ==> final(self).mask_register.bits == value,
            addr % 8 != 1 ==> final(self).mask_register == old(self).mask_register,
            addr % 8 == 3 ==> final(self).oam_addr == value && final(self).oam_data == old(self).oam_data,
            addr % 8 == 4 ==> final(self).oam_data@ == old(self).oam_data@.update(old(self).oam_addr as int, value)
                && final(self).oam_addr == (old(self).oam_addr + 1) % 256,
            addr % 8 != 4 && addr % 8 != 3 ==> final(self).oam_data == old(self).oam_data
                && final(self).oam_addr == old(self).oam_addr,
            addr % 8 == 5 ==> final(self).scroll_register == old(self).scroll_register.scroll_written(value),
            addr % 8 == 6 ==> final(self).scroll_register == old(self).scroll_register.addr_written(value),
            addr % 8 == 7 ==> memory_written(*old(self), *final(self), value),
            addr % 8 != 7 ==> final(self).v_ram == old(self).v_ram
                && final(self).palette_table == old(self).palette_table
                && final(self).pattern_table == old(self).pattern_table,
            addr % 8 != 0 && addr % 8 != 5 && addr % 8 != 6 && addr % 8 != 7
                ==> final(self).scroll_register == old(self).scroll_register,
            final(self).status_register == old(self).status_register,
            final(self).scanline == old(self).scanline,
            final(self).cycles == old(self).cycles,
            final(self).frame_is_odd == old(self).frame_is_odd,
            final(self).prerender_rendering_enabled == old(self).prerender_rendering_enabled,
            final(self).nmi_fired_this_vblank == old(self).nmi_fired_this_vblank,
            final(self).suppress_vblank == old(self).suppress_vblank,
            final(self).last_2002_read_scanline == old(self).last_2002_read_scanline,
            final(self).last_2002_read_dot == old(self).last_2002_read_dot,
            final(self).nmi_raised == old(self).nmi_raised,
            final(self).internal_data == old(self).internal_data,
            final(self).mirroring == old(self).mirroring,
            final(self).chr_is_ram == old(self).chr_is_ram,
    {
        let reg = addr % 8;
        if reg == 0 {
            self.write_to_ctrl(value);
        } else if reg == 1 {
            self.mask_register.update(value);
        } else if reg == 3 {
            self.oam_addr = value;
        } else if reg == 4 {
            self.write_to_oam_data(value);
        } else if reg == 5 {
            self.scroll_register.write_scroll(value);
        } else if reg == 6 {
            self.scroll_register.write_to_addr(value);
        } else if reg == 7 {
            self.write_memory(value);
        }
        self.last_byte_read = value;
    }

    /// Advances the PPU by one dot of `dot_step`: vertical blank and NMI timing, the
    /// odd-frame skip, and the write toggle reset at dot 1 of the pre-render line. An NMI
    /// is latched in `nmi_raised` for the bus. Returns whether a frame was completed.
    pub fn tick(&mut self) -> (frame_complete: bool)
        requires
            old(self).wf(),
        ensures
            final(self).wf(),
            ({
                let s = dot_step(old(self).clock_view(), old(self).ctrl_register.bits, old(self).mask_register.bits,
                    old(self).last_2002_read_scanline, old(self).last_2002_read_dot);
                &&& final(self).clock_view() == s.0
                &&& frame_complete == s.2
                &&& final(self).nmi_raised == (old(self).nmi_raised || s.1)
            }),
            final(self).scroll_register == (if old(self).scanline == 261 && old(self).cycles == 1 {
                ScrollRegister { w: false, ..old(self).scroll_register }
            } else {
                old(self).scroll_register
            }),
            final(self).ctrl_register == old(self).ctrl_register,
            final(self).mask_register == old(self).mask_register,
            final(self).v_ram == old(self).v_ram,
            final(self).palette_table == old(self).palette_table,
            final(self).pattern_table == old(self).pattern_table,
            final(self).oam_data == old(self).oam_data,
            final(self).oam_addr == old(self).oam_addr,
            final(self).internal_data == old(self).internal_data,
            final(self).last_byte_read == old(self).last_byte_read,
            final(self).last_2002_read_scanline == old(self).last_2002_read_scanline,
            final(self).last_2002_read_dot == old(self).last_2002_read_dot,
            final(self).mirroring == old(self).mirroring,
            final(self).chr_is_ram == old(self).chr_is_ram,
    {
        let c = DotClock {
            scanline: self.scanline,
            cycles: self.cycles,
            status: self.status_register.bits,
            frame_is_odd: self.frame_is_odd,
            prerender_rendering_enabled: self.prerender_rendering_enabled,
            nmi_fired_this_vblank: self.nmi_fired_this_vblank,
            suppress_vblank: self.suppress_vblank,
            instant_nmi_pending: self.instant_nmi_pending,
        };
        let (next, nmi, frame) = step_dot(c, self.ctrl_register.bits, self.mask_register.bits,
            self.last_2002_read_scanline, self.last_2002_read_dot);
        let scroll = if self.scanline == 261 && self.cycles == 1 {
            ScrollRegister { w: false, ..self.scroll_register }
        } else {
            self.scroll_register
        };
        self.scroll_register = scroll;
        self.scanline = next.scanline;
        self.cycles = next.cycles;
        self.status_register = StatusRegister { bits: next.status };
        self.frame_is_odd = next.frame_is_odd;
        self.prerender_rendering_enabled = next.prerender_rendering_enabled;
        self.nmi_fired_this_vblank = next.nmi_fired_this_vblank;
        self.suppress_vblank = next.suppress_vblank;
        self.instant_nmi_pending = next.instant_nmi_pending;
        self.nmi_raised = self.nmi_raised || nmi;
        frame
    }

    /// A bound on the dots left until vertical blank starts (0 once it has): the distance
    /// to dot 1 of line 241, or, while a $2002 read suppresses this frame's start, the
    /// distance to the end of the frame plus a full frame's worth.
    pub open spec fn dots_until_vblank(&self) -> nat {
        let p = self.scanline * 341 + self.cycles;
        let t = 241 * 341 + 1;
        let f = 262 * 341;
        if self.status_register.bits >= 128 {
            0
        } else if self.suppress_vblank {
            (f - p + t + 2) as nat
        } else if p <= t {
            (t - p + 1) as nat
        } else {
            (t + f - p + 1) as nat
        }
    }

    /// Ticks until vertical blank has started; returns at once if it already has. When it
    /// ticks, it stops on the dot after the one that starts vertical blank: dot 2 of line
    /// 241.
    pub fn run_until_vblank(&mut self)
        requires
            old(self).wf(),
        ensures
            final(self).wf(),
            final(self).status_register.bits >= 128,
            old(self).status_register.bits >= 128 ==> *final(self) == *old(self),
            old(self).status_register.bits < 128 ==> final(self).scanline == 241 && final(self).cycles == 2,
            final(self).ctrl_register == old(self).ctrl_register,
            final(self).v_ram == old(self).v_ram,
            final(self).oam_data == old(self).oam_data,
    {
        loop
            invariant
                self.wf(),
                self.ctrl_register == old(self).ctrl_register,
                self.v_ram == old(self).v_ram,
                self.oam_data == old(self).oam_data,
                old(self).status_register.bits >= 128 ==> *self == *old(self),
                old(self).status_register.bits < 128 && self.status_register.bits >= 128
                    ==> self.scanline == 241 && self.cycles == 2,
            ensures
                self.status_register.bits >= 128,
                old(self).status_register.bits >= 128 ==> *self == *old(self),
                old(self).status_register.bits < 128 ==> self.scanline == 241 && self.cycles == 2,
            decreases self.dots_until_vblank(),
        {
            if self.status_register.is_in_vblank() {
                break;
            }
            self.tick();
        }
    }

    /// A CPU write to $2004: stores the byte at the sprite-memory address, which advances.
    pub fn write_to_oam_data(&mut self, value: u8)
        requires
            old(self).wf(),
        ensures
            final(self).wf(),
            final(self).oam_data@ == old(self).oam_data@.update(old(self).oam_addr as int, value),
            final(self).oam_addr == (old(self).oam_addr + 1) % 256,
            final(self).v_ram == old(self).v_ram,
            final(self).palette_table == old(self).palette_table,
            final(self).ctrl_register == old(self).ctrl_register,
            final(self).mask_register == old(self).mask_register,
            final(self).status_register == old(self).status_register,
            final(self).clock_view() == old(self).clock_view(),
            final(self).scroll_register == old(self).scroll_register,
            final(self).pattern_table == old(self).pattern_table,
            final(self).last_2002_read_scanline == old(self).last_2002_read_scanline,
            final(self).last_2002_read_dot == old(self).last_2002_read_dot,
            final(self).nmi_raised == old(self).nmi_raised,
            final(self).internal_data == old(self).internal_data,
            final(self).last_byte_read == old(self).last_byte_read,
            final(self).mirroring == old(self).mirroring,
            final(self).chr_is_ram == old(self).chr_is_ram,
    {
        self.oam_data.set(self.oam_addr as usize, value);
        self.oam_addr = self.oam_addr.wrapping_add(1);
    }
}

/// Mirroring a palette address twice changes nothing: the entry an address reaches is its
/// own canonical address.
pub proof fn lemma_palette_mirroring_idempotent(addr: u16)
    requires
        addr >= 0x3F00,
    ensures
        palette_index((0x3F00 + palette_index(addr)) as u16) == palette_index(addr),
{
}

/// Every address of $3F00-$3FFF reaches one of the 32 palette entries.
pub proof fn lemma_palette_index_in_range(addr: u16)
    requires
        addr >= 0x3F00,
    ensures
        palette_index(addr) < PALETTE_SIZE,
        palette_index(addr) == palette_index((0x3F00 + (addr - 0x3F00) % 0x20) as u16),
{
}

/// What a $2007 write stores, a $2007 read at the same address gives back: a nametable or
/// (writable) pattern byte arrives in the read buffer, which the following read returns; a
/// palette byte is returned at once. `p` is the PPU before the write and `q` after it; `r`
/// is `q` pointed back at the written address, and `s` is `r` after the read that returned
/// `x`.
pub proof fn lemma_vram_write_then_read(p: PPU, q: PPU, r: PPU, s: PPU, value: u8, x: u8)
    requires
        p.wf(),
        memory_written(p, q, value),
        r.scroll_register.v == p.scroll_register.v,
        r.v_ram == q.v_ram,
        r.palette_table == q.palette_table,
        r.pattern_table == q.pattern_table,
        r.mirroring == p.mirroring,
        memory_read(r, s, x),
    ensures
        ({
            let a = p.scroll_register.v % 0x4000;
            &&& (0x2000 <= a < 0x3F00 ==> s.internal_data == value)
            &&& (a >= 0x3F00 ==> x == value)
            &&& (a < 0x2000 && p.chr_is_ram ==> s.internal_data == value)
        }),
{
    let a = p.scroll_register.v % 0x4000;
    if 0x2000 <= a < 0x3F00 {
        assert(nametable_offset(a as u16, p.mirroring) < RAM_SIZE);
    }
    if a >= 0x3F00 {
        lemma_palette_index_in_range(a as u16);
    }
    if a < 0x2000 {
        assert((a as int) % (p.pattern_table@.len() as int) < p.pattern_table@.len());
    }
}

/// Nametable mirroring over $2000-$2FFF: every address keeps its offset within its 1 KiB
/// table; vertical mirroring pairs $2000 with $2800 and $2400 with $2C00 (the second RAM
/// bank for the right-hand tables), horizontal mirroring pairs $2000 with $2400 and $2800
/// with $2C00 (the second bank for the lower tables), and the single-screen modes use one
/// bank for all four.
pub proof fn lemma_nametable_mirroring(addr: u16)
    requires
        0x2000 <= addr < 0x3000,
    ensures
        forall|m: Mirroring| m != Mirroring::FourScreen ==> #[trigger] nametable_offset(addr, m) % 0x400 == addr % 0x400,
        (nametable_offset(addr, Mirroring::Vertical) >= 0x400) == (((addr - 0x2000) / 0x400) % 2 == 1),
        (nametable_offset(addr, Mirroring::Horizontal) >= 0x400) == (addr >= 0x2800),
        nametable_offset(addr, Mirroring::Single0) < 0x400,
        0x400 <= nametable_offset(addr, Mirroring::Single1) < 0x800,
        nametable_offset(addr, Mirroring::FourScreen) == (addr - 0x2000) % 0x800,
        addr < 0x2800 ==> nametable_offset(addr, Mirroring::Vertical) == nametable_offset((addr + 0x800) as u16, Mirroring::Vertical),
        (addr - 0x2000) / 0x400 % 2 == 0 ==> nametable_offset(addr, Mirroring::Horizontal)
            == nametable_offset((addr + 0x400) as u16, Mirroring::Horizontal),
{
}

/// After a $2007 access the VRAM address moves on by 32 (down a row) when bit 2 of the
/// control register is set and by 1 (across) otherwise, wrapping within 15 bits; the other
/// scroll latches stay.
pub proof fn lemma_address_step(p: PPU)
    ensures
        p.ctrl_register.bits & 4 != 0 ==> address_stepped(p).v == (p.scroll_register.v + 32) % 0x8000,
        p.ctrl_register.bits & 4 == 0 ==> address_stepped(p).v == (p.scroll_register.v + 1) % 0x8000,
        address_stepped(p).t == p.scroll_register.t,
        address_stepped(p).x == p.scroll_register.x,
        address_stepped(p).w == p.scroll_register.w,
{
    let b = p.ctrl_register.bits;
    assert((b & 4 != 0) == ((b / 4) % 2 == 1)) by (bit_vector);
}

} // verus!
