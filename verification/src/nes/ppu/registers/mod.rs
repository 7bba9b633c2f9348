use vstd::prelude::*;

verus! {

/// $2000 PPUCTRL `VPHB SINN`.
#[derive(Clone, Copy, Debug, PartialEq, Eq, Structural)]
pub struct ControlRegister {
    pub bits: u8,
}

impl ControlRegister {
    pub const NAMETABLE1: u8 = 0b0000_0001;
    pub const NAMETABLE2: u8 = 0b0000_0010;
    pub const VRAM_ADD_INCREMENT: u8 = 0b0000_0100;
    pub const SPRITE_PATTERN_ADDR: u8 = 0b0000_1000;
    pub const BACKGROUND_PATTERN_ADDR: u8 = 0b0001_0000;
    pub const SPRITE_SIZE: u8 = 0b0010_0000;
    pub const MASTER_SLAVE_SELECT: u8 = 0b0100_0000;
    pub const GENERATE_NMI: u8 = 0b1000_0000;

    pub fn new() -> (r: ControlRegister)
        ensures
            r.bits == 0,
    {
        ControlRegister { bits: 0 }
    }

    pub fn bits(&self) -> (b: u8)
        ensures
            b == self.bits,
    {
        self.bits
    }

    pub fn update(&mut self, data: u8)
        ensures
            final(self).bits == data,
    {
        self.bits = data;
    }

    /// Whether entering vertical blank raises an NMI (bit 7).
    pub fn generate_nmi(&self) -> (r: bool)
        ensures
            r == (self.bits >= 128),
    {
        self.bits >= 0b1000_0000
    }

    /// The step of the VRAM address after each $2007 access: 32 (down a row) when bit 2 is
    /// set, 1 (across) otherwise.
    pub fn increment_ram_addr(&self) -> (inc: u8)
        ensures
            inc == (if (self.bits / 4) % 2 == 1 { 32u8 } else { 1u8 }),
    {
        if (self.bits / 4) % 2 == 1 { 32 } else { 1 }
    }
}

/// $2001 PPUMASK `BGRs bMmG`.
#[derive(Clone, Copy, Debug, PartialEq, Eq, Structural)]
pub struct MaskRegister {
    pub bits: u8,
}

impl MaskRegister {
    pub fn new() -> (r: MaskRegister)
        ensures
            r.bits == 0,
    {
        MaskRegister { bits: 0 }
    }

    pub fn bits(&self) -> (b: u8)
        ensures
            b == self.bits,
    {
        self.bits
    }

    pub fn update(&mut self, data: u8)
        ensures
            final(self).bits == data,
    {
        self.bits = data;
    }

    /// Whether the background or the sprites are shown (bits 3 and 4).
    pub fn rendering_enabled(&self) -> (r: bool)
        ensures
            r == ((self.bits / 8) % 4 != 0),
    {
        (self.bits / 8) % 4 != 0
    }
}

/// $2002 PPUSTATUS `VSO- ----`.
#[derive(Clone, Copy, Debug, PartialEq, Eq, Structural)]
pub struct StatusRegister {
    pub bits: u8,
}

impl StatusRegister {
    pub const SPRITE_OVERFLOW: u8 = 0b0010_0000;
    pub const SPRITE_ZERO_HIT: u8 = 0b0100_0000;
    pub const VBLANK_STARTED: u8 = 0b1000_0000;

    pub fn new() -> (r: StatusRegister)
        ensures
            r.bits == 0,
    {
        StatusRegister { bits: 0 }
    }

    pub fn bits(&self) -> (b: u8)
        ensures
            b == self.bits,
    {
        self.bits
    }

    pub fn is_in_vblank(&self) -> (r: bool)
        ensures
            r == (self.bits >= 128),
    {
        self.bits >= 0b1000_0000
    }

    pub fn set_vblank_status(&mut self, status: bool)
        ensures
            status ==> final(self).bits == old(self).bits % 128 + 128,
            !status ==> final(self).bits == old(self).bits % 128,
    {
        self.bits = if status { self.bits % 128 + 128 } else { self.bits % 128 };
    }

    pub fn set_sprite_zero_hit(&mut self, status: bool)
        ensures
            final(self).bits == crate::nes::cpu::set_bits(old(self).bits, StatusRegister::SPRITE_ZERO_HIT, status),
    {
        if status {
            self.bits = self.bits | StatusRegister::SPRITE_ZERO_HIT;
        } else {
            self.bits = self.bits & !StatusRegister::SPRITE_ZERO_HIT;
        }
    }

    pub fn set_sprite_overflow(&mut self, status: bool)
        ensures
            final(self).bits == crate::nes::cpu::set_bits(old(self).bits, StatusRegister::SPRITE_OVERFLOW, status),
    {
        if status {
            self.bits = self.bits | StatusRegister::SPRITE_OVERFLOW;
        } else {
            self.bits = self.bits & !StatusRegister::SPRITE_OVERFLOW;
        }
    }

    pub fn reset_vblank_status(&mut self)
        ensures
            final(self).bits == old(self).bits % 128,
    {
        self.bits = self.bits % 128;
    }
}

/// The scroll and VRAM address latches written through $2005 and $2006: the current
/// address `v`, the temporary address `t`, the fine X scroll and the write toggle `w`.
#[derive(Clone, Copy, Debug, PartialEq, Eq, Structural)]
pub struct ScrollRegister {
    pub v: u16,
    pub t: u16,
    pub x: u8,
    pub w: bool,
}

impl ScrollRegister {
    pub open spec fn wf(self) -> bool {
        self.v < 0x8000 && self.t < 0x8000
    }

    pub fn new() -> (r: ScrollRegister)
        ensures
            r == (ScrollRegister { v: 0, t: 0, x: 0, w: false }),
    {
        ScrollRegister { v: 0, t: 0, x: 0, w: false }
    }

    /// The latches after a $2005 write: coarse and fine X on the first write, coarse and
    /// fine Y on the second.
    pub open spec fn scroll_written(self, value: u8) -> ScrollRegister {
        if !self.w {
            ScrollRegister { t: ((self.t / 32) * 32 + value / 8) as u16, x: value % 8, w: true, ..self }
        } else {
            ScrollRegister {
                t: ((self.t % 32) + (self.t / 1024 % 4) * 1024 + (value / 8) as int * 32
                    + (value % 8) as int * 4096) as u16,
                w: false,
                ..self
            }
        }
    }

    /// The latches after a $2006 write: the high six bits of the address on the first
    /// write, the low byte on the second, which also copies `t` into `v`.
    pub open spec fn addr_written(self, value: u8) -> ScrollRegister {
        if !self.w {
            ScrollRegister { t: ((value % 64) as int * 256 + self.t % 256) as u16, w: true, ..self }
        } else {
            let t = ((self.t / 256) * 256 + value) as u16;
            ScrollRegister { t, v: t, w: false, ..self }
        }
    }

    pub fn write_scroll(&mut self, value: u8)
        requires
            old(self).wf(),
        ensures
            final(self).wf(),
            *final(self) == old(self).scroll_written(value),
    {
        if !self.w {
            self.t = (self.t / 32) * 32 + (value / 8) as u16;
            self.x = value % 8;
        } else {
            self.t = (self.t % 32) + (self.t / 1024 % 4) * 1024 + (value / 8) as u16 * 32
                + (value % 8) as u16 * 4096;
        }
        self.w = !self.w;
    }

    pub fn write_to_addr(&mut self, value: u8)
        requires
            old(self).wf(),
        ensures
            final(self).wf(),
            *final(self) == old(self).addr_written(value),
    {
        if !self.w {
            self.t = (value % 64) as u16 * 256 + self.t % 256;
        } else {
            self.t = (self.t / 256) * 256 + value as u16;
            self.v = self.t;
        }
        self.w = !self.w;
    }

    /// The 14-bit VRAM address.
    pub fn get_addr(&self) -> (a: u16)
        ensures
            a == self.v % 0x4000,
    {
        self.v % 0x4000
    }

    /// Steps the VRAM address by `inc`, within 15 bits.
    pub fn increment_addr(&mut self, inc: u8)
        requires
            old(self).wf(),
        ensures
            final(self).wf(),
            final(self).v == (old(self).v + inc) % 0x8000,
            final(self).t == old(self).t,
            final(self).x == old(self).x,
            final(self).w == old(self).w,
    {
        self.v = (self.v + inc as u16) % 0x8000;
    }

    /// Reading $2002 clears the write toggle.
    pub fn reset_latch(&mut self)
        ensures
            *final(self) == (ScrollRegister { w: false, ..*old(self) }),
    {
        self.w = false;
    }
}

} // verus!
