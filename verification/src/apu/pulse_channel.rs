use vstd::prelude::*;
use crate::apu::units::envelope::Envelope;
use crate::apu::units::length_counter::{length_table, LengthCounter};
use crate::apu::units::sequence_timer::SequenceTimer;
use crate::apu::units::sweep::{PulseType, Sweep};

verus! {

/// The 8-step waveform of each duty cycle, played from its high bit.
pub open spec fn duty_sequence(duty: u8) -> u8 {
    if duty == 0 {
        0b0100_0000
    } else if duty == 1 {
        0b0110_0000
    } else if duty == 2 {
        0b0111_1000
    } else {
        0b1001_1111
    }
}

pub open spec fn rotate_sequence(s: u8) -> u8 {
    ((s % 128) * 2 + s / 128) as u8
}

pub open spec fn pulse_type_of(is_channel1: bool) -> PulseType {
    if is_channel1 {
        PulseType::Pulse1
    } else {
        PulseType::Pulse2
    }
}

/// A pulse (square-wave) channel.
#[derive(Clone, Copy)]
pub struct PulseChannel {
    pub seq_timer: SequenceTimer,
    pub length_counter: LengthCounter,
    pub envelope: Envelope,
    pub sweep: Sweep,
    pub duty_cycle: u8,
    pub sequence: u8,
}

impl PulseChannel {
    /// The timer period fits in 11 bits and the sweep shift in 3, as the registers load them.
    pub open spec fn wf(self) -> bool {
        &&& self.seq_timer.reload_value <= 0x7FF
        &&& self.seq_timer.value <= 0x7FF
        &&& self.sweep.shift < 8
    }

    /// The channel after one APU clock; the sweep works on the timer's current count.
    pub open spec fn clocked(self, quarter_frame_clock: bool, half_frame_clock: bool) -> PulseChannel {
        let t = self.seq_timer.clocked();
        let seq = if self.seq_timer.fires() { rotate_sequence(self.sequence) } else { self.sequence };
        let env = if quarter_frame_clock { self.envelope.clock_spec() } else { self.envelope };
        if half_frame_clock {
            PulseChannel {
                seq_timer: SequenceTimer { reload_value: self.sweep.clocked_timer(t.value), ..t },
                length_counter: self.length_counter.clocked(),
                envelope: env,
                sweep: self.sweep.clocked(),
                sequence: seq,
                ..self
            }
        } else {
            PulseChannel { seq_timer: t, envelope: env, sequence: seq, ..self }
        }
    }

    /// The envelope volume while the waveform is high and the length counter runs.
    pub open spec fn sample_spec(self) -> u8 {
        if self.sequence < 128 || self.length_counter.value == 0 {
            0
        } else {
            self.envelope.output_spec()
        }
    }

    pub fn new(is_channel1: bool) -> (c: PulseChannel)
        ensures
            c.seq_timer == (SequenceTimer { reload_value: 0, value: 0 }),
            c.length_counter == (LengthCounter { enabled: false, halted: false, value: 0 }),
            c.envelope == Envelope::new_spec(),
            c.sweep == Sweep::new_spec(pulse_type_of(is_channel1)),
            c.duty_cycle == 0,
            c.sequence == 0,
            c.wf(),
    {
        let pulse_type = if is_channel1 {
            PulseType::Pulse1
        } else {
            PulseType::Pulse2
        };
        PulseChannel {
            seq_timer: SequenceTimer::new(),
            sweep: Sweep::new(pulse_type),
            envelope: Envelope::new(),
            duty_cycle: 0,
            sequence: 0,
            length_counter: LengthCounter::new(),
        }
    }

    pub open spec fn write_4000_spec(self, value: u8) -> PulseChannel {
        PulseChannel {
            duty_cycle: value / 64,
            sequence: duty_sequence(value / 64),
            envelope: self.envelope.set_spec(value),
            ..self
        }
    }

    /// $4000 `DDLC VVVV`: duty cycle and envelope.
    pub fn write_4000(&mut self, value: u8)
        requires
            old(self).wf(),
        ensures
            *final(self) == old(self).write_4000_spec(value),
            final(self).wf(),
    {
        self.duty_cycle = value / 64;
        self.sequence = if self.duty_cycle == 0 {
            0b0100_0000
        } else if self.duty_cycle == 1 {
            0b0110_0000
        } else if self.duty_cycle == 2 {
            0b0111_1000
        } else {
            0b1001_1111
        };
        self.envelope.set(value);
    }

    pub open spec fn write_4001_spec(self, value: u8) -> PulseChannel {
        PulseChannel { sweep: self.sweep.set_spec(value), ..self }
    }

    /// $4001 `EPPP NSSS`: the sweep unit.
    pub fn write_4001(&mut self, value: u8)
        requires
            old(self).wf(),
        ensures
            *final(self) == old(self).write_4001_spec(value),
            final(self).wf(),
    {
        self.sweep.set(value);
    }

    pub open spec fn write_4002_spec(self, value: u8) -> PulseChannel {
        PulseChannel {
            seq_timer: SequenceTimer {
                reload_value: ((self.seq_timer.reload_value / 256) % 8 * 256 + value) as u16,
                ..self.seq_timer
        },
            ..self
        }
    }

    /// $4002: the low byte of the timer period.
    pub fn write_4002(&mut self, value: u8)
        requires
            old(self).wf(),
        ensures
            *final(self) == old(self).write_4002_spec(value),
            final(self).wf(),
    {
        self.seq_timer.set_reload_low(value);
    }

    pub open spec fn write_4003_spec(self, value: u8) -> PulseChannel {
        let reload = ((value % 8) * 256 + self.seq_timer.reload_value % 256) as u16;
        PulseChannel {
            length_counter: LengthCounter {
                value: length_table(value / 8),
                enabled: length_table(value / 8) > 0,
                ..self.length_counter
            },
            seq_timer: SequenceTimer { reload_value: reload, value: reload },
            envelope: Envelope { start: false, decay: 15, divider: self.envelope.period, ..self.envelope },
            ..self
        }
    }

    /// $4003 `LLLL LTTT`: length-counter load and the high bits of the period; restarts the
    /// envelope and the timer.
    pub fn write_4003(&mut self, value: u8)
        requires
            old(self).wf(),
        ensures
            *final(self) == old(self).write_4003_spec(value),
            final(self).wf(),
    {
        let length_counter_load = value / 8;
        self.length_counter.set(length_counter_load);
        self.seq_timer.set_reload_high(value % 8);
        self.envelope.start();
        self.seq_timer.reset();
    }

    /// Clocked every APU cycle (half the CPU rate).
    pub fn clock(&mut self, quarter_frame_clock: bool, half_frame_clock: bool)
        requires
            old(self).wf(),
        ensures
            *final(self) == old(self).clocked(quarter_frame_clock, half_frame_clock),
            final(self).wf(),
    {
        proof {
            lemma_wf_clock_defined(self.sweep, self.seq_timer.clocked().value);
            crate::apu::units::sweep::lemma_sweep_keeps_period_in_range(self.sweep, self.seq_timer.clocked().value);
        }
        if self.seq_timer.clock() {
            self.sequence = (self.sequence % 128) * 2 + self.sequence / 128;
        }
        if quarter_frame_clock {
            self.envelope.clock();
        }
        if half_frame_clock {
            self.length_counter.clock();
            let mut seq_timer_reload = self.seq_timer.output();
            self.sweep.clock(&mut seq_timer_reload);
            self.seq_timer.set_reload(seq_timer_reload);
        }
    }

    fn duty_output(&self) -> (d: u8)
        ensures
            d == if self.sequence >= 128 { 1u8 } else { 0u8 },
    {
        if self.sequence >= 0b1000_0000 {
            1
        } else {
            0
        }
    }

    pub fn sample(&self) -> (s: u8)
        ensures
            s == self.sample_spec(),
    {
        let duty_output = self.duty_output();
        let vol = self.envelope.output();
        let length_counter = self.length_counter.output();
        if duty_output == 0 || length_counter == 0 {
            0
        } else {
            vol
        }
    }
}

/// A sweep whose shift fits in 3 bits computes its target without overflow on any 11-bit period.
pub proof fn lemma_wf_clock_defined(sweep: Sweep, timer: u16)
    requires
        sweep.shift < 8,
        timer <= 0x7FF,
    ensures
        sweep.checks_muting() ==> sweep.muting_defined(timer),
{
    let sh = sweep.shift;
    assert(timer <= 0x7FF && 1 <= sh ==> timer >> sh <= timer / 2) by (bit_vector);
}

} // verus!
