use vstd::prelude::*;
use crate::apu::units::dmc_output::DmcOutput;
use crate::apu::units::sequence_timer::SequenceTimer;

verus! {

/// The output-rate periods selectable through $4010.
pub open spec fn dmc_rate(i: u8) -> i16 {
    match i % 16 {
        0 => 428, 1 => 380, 2 => 340, 3 => 320, 4 => 286, 5 => 254, 6 => 226, 7 => 214,
        8 => 190, 9 => 160, 10 => 142, 11 => 128, 12 => 106, 13 => 84, 14 => 72, _ => 54,
    }
}

fn rate_table(i: u8) -> (r: i16)
    ensures
        r == dmc_rate(i),
{
    match i % 16 {
        0 => 428, 1 => 380, 2 => 340, 3 => 320, 4 => 286, 5 => 254, 6 => 226, 7 => 214,
        8 => 190, 9 => 160, 10 => 142, 11 => 128, 12 => 106, 13 => 84, 14 => 72, _ => 54,
    }
}

/// The delta-modulation channel's registers; it does not play samples yet.
#[derive(Clone, Copy)]
pub struct DmcChannel {
    pub seq_timer: SequenceTimer,
    pub irq_enabled: bool,
    pub loop_flag: bool,
    pub output: DmcOutput,
    pub rate: i16,
    pub direct_load: u8,
    pub sample_address: u16,
    pub sample_length: u16,
    pub current_address: u16,
    pub bytes_remaining: u16,
}

impl DmcChannel {
    pub fn new() -> (c: DmcChannel)
        ensures
            c.seq_timer == (SequenceTimer { reload_value: 0, value: 0 }),
            !c.irq_enabled,
            !c.loop_flag,
            c.output == (DmcOutput { register: 0, bits_remaining: 0, current_bit: 0, silence_flag: false }),
            c.rate == 0,
            c.direct_load == 0,
            c.sample_address == 0,
            c.sample_length == 0,
            c.current_address == 0,
            c.bytes_remaining == 0,
    {
        DmcChannel {
            seq_timer: SequenceTimer::new(),
            irq_enabled: false,
            loop_flag: false,
            output: DmcOutput::new(),
            rate: 0,
            direct_load: 0,
            sample_address: 0,
            sample_length: 0,
            current_address: 0,
            bytes_remaining: 0,
        }
    }

    /// $4010 `IL-- RRRR`: IRQ enable, loop, rate index.
    pub fn write_4010(&mut self, value: u8)
        ensures
            *final(self) == (DmcChannel {
                irq_enabled: value >= 128,
                loop_flag: (value / 64) % 2 == 1,
                rate: dmc_rate(value % 16),
                ..*old(self)
            }),
    {
        self.irq_enabled = value >= 0b1000_0000;
        self.loop_flag = (value / 64) % 2 == 1;
        let rate_index = value % 16;
        self.rate = rate_table(rate_index);
    }

    /// $4011 `-DDD DDDD`: the direct-load value goes to the output unit.
    pub fn write_4011(&mut self, value: u8)
        ensures
            *final(self) == (DmcChannel {
                output: DmcOutput { register: value % 128, ..old(self).output },
                ..*old(self)
            }),
    {
        self.output.set_register(value % 128);
    }

    /// $4012: the sample starts at $C000 + 64 * value.
    pub fn write_4012(&mut self, value: u8)
        ensures
            *final(self) == (DmcChannel { sample_address: (0xC000 + value * 64) as u16, ..*old(self) }),
    {
        self.sample_address = 0xC000 + (value as u16 * 64);
    }

    /// $4013: the sample is 16 * value + 1 bytes long.
    pub fn write_4013(&mut self, value: u8)
        ensures
            *final(self) == (DmcChannel { sample_length: (value * 16 + 1) as u16, ..*old(self) }),
    {
        self.sample_length = value as u16 * 16 + 1;
    }

    pub fn start(&mut self)
        ensures
            *final(self) == (DmcChannel {
                current_address: old(self).sample_address,
                bytes_remaining: old(self).sample_length,
                ..*old(self)
            }),
    {
        self.current_address = self.sample_address;
        self.bytes_remaining = self.sample_length;
    }

    /// The channel does not play yet: clocking leaves it unchanged.
    pub fn clock(&mut self)
        ensures
            *final(self) == *old(self),
    {
    }

    /// The channel does not play yet: its sample is silence.
    pub fn sample(&self) -> (s: u8)
        ensures
            s == 0,
    {
        0
    }
}

} // verus!
