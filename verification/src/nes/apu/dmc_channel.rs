use vstd::prelude::*;
use super::units::sequence_timer::SequenceTimer;

verus! {

/// The output-rate periods selectable through $4010.
pub open spec fn dmc_rate(i: u8) -> u16 {
    match i % 16 {
        0 => 428, 1 => 380, 2 => 340, 3 => 320, 4 => 286, 5 => 254, 6 => 226, 7 => 214,
        8 => 190, 9 => 160, 10 => 142, 11 => 128, 12 => 106, 13 => 84, 14 => 72, _ => 54,
    }
}

pub fn rate_table(i: u8) -> (r: u16)
    ensures
        r == dmc_rate(i),
{
    match i % 16 {
        0 => 428, 1 => 380, 2 => 340, 3 => 320, 4 => 286, 5 => 254, 6 => 226, 7 => 214,
        8 => 190, 9 => 160, 10 => 142, 11 => 128, 12 => 106, 13 => 84, 14 => 72, _ => 54,
    }
}

/// The delta-modulation channel: a 7-bit level moved up or down by the bits of a sample.
#[derive(Clone, Copy)]
pub struct DmcChannel {
    pub seq_timer: SequenceTimer,
    pub irq_enabled: bool,
    pub loop_flag: bool,
    pub register: u8,
    pub level: u8,
    pub current_bit: u8,
    pub sample_address: u16,
    pub current_address: u16,
    pub sample_length: u16,
    pub bytes_remaining: u16,
}

impl DmcChannel {
    /// The inputs on which a clock neither overflows its bit counter nor runs out of bytes.
    pub open spec fn clock_defined(self) -> bool {
        self.seq_timer.fires() ==> (self.current_bit < 255 && (self.current_bit + 1 >= 8 ==> self.bytes_remaining > 0))
    }

    pub open spec fn clocked(self) -> DmcChannel {
        let t0 = self.seq_timer.clocked();
        let t = if self.bytes_remaining > 0 { SequenceTimer { value: t0.reload_value, ..t0 } } else { t0 };
        if self.seq_timer.fires() {
            let b = (self.current_bit + 1) as u8;
            let wrapped = b >= 8;
            let cb: u8 = if wrapped { 0 } else { b };
            let rem0: u16 = if wrapped { (self.bytes_remaining - 1) as u16 } else { self.bytes_remaining };
            let looped = wrapped && rem0 == 0 && self.loop_flag;
            let up = (self.register >> cb) & 1 != 0;
            DmcChannel {
                seq_timer: t,
                current_bit: cb,
                bytes_remaining: if looped { self.sample_length } else { rem0 },
                current_address: if looped { self.sample_address } else { self.current_address },
                level: if 2 <= self.level <= 125 {
                    if up { (self.level + 2) as u8 } else { (self.level - 2) as u8 }
                } else {
                    self.level
                },
                ..self
            }
        } else {
            DmcChannel { seq_timer: t, ..self }
        }
    }

    pub open spec fn new_spec() -> DmcChannel {
        DmcChannel {
            seq_timer: SequenceTimer { reload_value: 0, value: 0 },
            irq_enabled: false,
            loop_flag: false,
            register: 0,
            level: 0,
            current_bit: 0,
            sample_address: 0,
            current_address: 0,
            sample_length: 0,
            bytes_remaining: 0,
        }
    }

    pub fn new() -> (c: DmcChannel)
        ensures
            c == DmcChannel::new_spec(),
    {
        DmcChannel {
            seq_timer: SequenceTimer::new(),
            irq_enabled: false,
            loop_flag: false,
            register: 0,
            level: 0,
            current_bit: 0,
            sample_address: 0,
            current_address: 0,
            sample_length: 0,
            bytes_remaining: 0,
        }
    }

    pub open spec fn write_4010_spec(self, value: u8) -> DmcChannel {
        DmcChannel {
            irq_enabled: value >= 128,
            loop_flag: (value / 64) % 2 == 1,
            seq_timer: SequenceTimer { reload_value: dmc_rate(value % 16), ..self.seq_timer },
            ..self
        }
    }

    /// $4010 `IL-- RRRR`: IRQ enable, loop, rate index.
    pub fn write_4010(&mut self, value: u8)
        ensures
            *final(self) == old(self).write_4010_spec(value),
    {
        self.irq_enabled = value >= 0b1000_0000;
        self.loop_flag = (value / 64) % 2 == 1;
        let rate_index = value % 16;
        self.seq_timer.set_reload(rate_table(rate_index));
    }

    pub open spec fn write_4011_spec(self, value: u8) -> DmcChannel {
        DmcChannel { level: value % 128, ..self }
    }

    /// $4011 `-DDD DDDD`: loads the output level directly.
    pub fn write_4011(&mut self, value: u8)
        ensures
            *final(self) == old(self).write_4011_spec(value),
    {
        self.level = value % 128;
    }

    pub open spec fn write_4012_spec(self, value: u8) -> DmcChannel {
        DmcChannel { sample_address: (0xC000 + value * 64) as u16, ..self }
    }

    /// $4012: the sample starts at $C000 + 64 * value.
    pub fn write_4012(&mut self, value: u8)
        ensures
            *final(self) == old(self).write_4012_spec(value),
    {
        self.sample_address = 0xC000 + (value as u16 * 64);
    }

    pub open spec fn write_4013_spec(self, value: u8) -> DmcChannel {
        DmcChannel { sample_length: (value * 16 + 1) as u16, ..self }
    }

    /// $4013: the sample is 16 * value + 1 bytes long.
    pub fn write_4013(&mut self, value: u8)
        ensures
            *final(self) == old(self).write_4013_spec(value),
    {
        self.sample_length = value as u16 * 16 + 1;
    }

    /// Restarts the sample from its first byte.
    pub fn start(&mut self)
        ensures
            *final(self) == (DmcChannel {
                current_address: old(self).sample_address,
                bytes_remaining: old(self).sample_length,
                ..*old(self)
            }),
    {
        self.current_address = self.sample_address;
        self.bytes_remaining = self.sample_length;
    }

    /// Disabling the channel has no effect on it yet.
    pub fn disable(&mut self)
        ensures
            *final(self) == *old(self),
    {
    }

    pub fn clock(&mut self)
        requires
            old(self).clock_defined(),
        ensures
            *final(self) == old(self).clocked(),
    {
        let advance_output = self.seq_timer.clock();
        if self.bytes_remaining > 0 {
            self.seq_timer.reset();
        }
        if advance_output {
            self.current_bit += 1;
            if self.current_bit >= 8 {
                self.current_bit = 0;
                self.bytes_remaining -= 1;
                if self.bytes_remaining == 0 && self.loop_flag {
                    self.bytes_remaining = self.sample_length;
                    self.current_address = self.sample_address;
                }
            }
            let level_up = (self.register >> self.current_bit) & 0b1 != 0;
            if self.level >= 2 && self.level <= 125 {
                if level_up {
                    self.level += 2;
                } else {
                    self.level -= 2;
                }
            }
        }
    }

    pub fn sample(&self) -> (s: u8)
        ensures
            s == self.level,
    {
        self.level
    }
}

/// The output level never leaves 0..=127 once it is there.
pub proof fn lemma_level_stays_7_bit(c: DmcChannel)
    requires
        c.level <= 127,
    ensures
        c.clocked().level <= 127,
{
}

/// The DMC rate table (NTSC CPU cycles per output bit), indexed by the low four bits of
/// $4010: 428, 380, 340, 320, 286, 254, 226, 214, 190, 160, 142, 128, 106, 84, 72, 54;
/// a higher index plays faster.
pub proof fn lemma_dmc_rates(i: u8, j: u8)
    ensures
        dmc_rate(i) == seq![428u16, 380, 340, 320, 286, 254, 226, 214, 190, 160, 142, 128, 106, 84, 72, 54][(i % 16) as int],
        i < j < 16 ==> dmc_rate(i) > dmc_rate(j),
{
}

} // verus!
