use vstd::prelude::*;
use super::units::envelope::Envelope;
use super::units::length_counter::{length_table, LengthCounter};
use super::units::sequence_timer::SequenceTimer;
use super::units::sweep::{PulseType, Sweep};

verus! {

/// The 8-step waveform of each duty cycle, played from its high bit.
pub open spec fn duty_sequence(duty: u8) -> u8 {
    if duty == 0 {
        0b0100_0000
    } else if duty == 1 {
        0b0110_0000
    } else if duty == 2 {
        0b0111_1000
    } else if duty == 3 {
        0b1011_1111
    } else {
        0b0100_0000
    }
}

/// The waveform rotated left by one step.
pub open spec fn rotate_sequence(s: u8) -> u8 {
    ((s % 128) * 2 + s / 128) as u8
}

pub open spec fn pulse_type_of(is_channel1: bool) -> PulseType {
    if is_channel1 {
        PulseType::Pulse1
    } else {
        PulseType::Pulse2
    }
}

/// A pulse (square-wave) channel.
#[derive(Clone, Copy)]
pub struct PulseChannel {
    pub seq_timer: SequenceTimer,
    pub length_counter: LengthCounter,
    pub envelope: Envelope,
    pub sweep: Sweep,
    pub duty_cycle: u8,
    pub sequence: u8,
}

impl PulseChannel {
    /// The timer period fits in 11 bits and the sweep shift in 3, as the registers load them.
    pub open spec fn wf(self) -> bool {
        &&& self.seq_timer.reload_value <= 0x7FF
        &&& self.seq_timer.value <= 0x7FF
        &&& self.sweep.shift < 8
    }

    /// The channel after one APU clock (quarter and half frame signals as given).
    #[verifier::opaque]
    pub open spec fn clocked(self, quarter_frame_clock: bool, half_frame_clock: bool) -> PulseChannel {
        let t = self.seq_timer.clocked();
        let seq = if self.seq_timer.fires() { rotate_sequence(self.sequence) } else { self.sequence };
        let env = if quarter_frame_clock { self.envelope.clock_spec() } else { self.envelope };
        if half_frame_clock {
            PulseChannel {
                seq_timer: SequenceTimer { reload_value: self.sweep.clocked_timer(t.reload_value), ..t },
                length_counter: self.length_counter.clocked(),
                envelope: env,
                sweep: self.sweep.clocked(),
                sequence: seq,
                ..self
            }
        } else {
            PulseChannel { seq_timer: t, envelope: env, sequence: seq, ..self }
        }
    }

    /// The level the channel outputs: the envelope volume while the waveform is high, the
    /// length counter runs and the period is at least 8.
    pub open spec fn sample_spec(self) -> u8 {
        if self.sequence < 128 || self.length_counter.value == 0 || self.seq_timer.value < 8 {
            0
        } else {
            self.envelope.output_spec()
        }
    }

    pub open spec fn new_spec(is_channel1: bool) -> PulseChannel {
        PulseChannel {
            seq_timer: SequenceTimer { reload_value: 0, value: 0 },
            sweep: Sweep::new_spec(pulse_type_of(is_channel1)),
            envelope: Envelope::new_spec(),
            duty_cycle: 0,
            sequence: 0,
            length_counter: LengthCounter { enabled: false, halted: false, value: 0 },
        }
    }

    pub fn new(is_channel1: bool) -> (c: PulseChannel)
        ensures
            c == PulseChannel::new_spec(is_channel1),
            c.wf(),
    {
        let pulse_type = if is_channel1 {
            PulseType::Pulse1
        } else {
            PulseType::Pulse2
        };
        PulseChannel {
            seq_timer: SequenceTimer::new(),
            sweep: Sweep::new(pulse_type),
            envelope: Envelope::new(),
            duty_cycle: 0,
            sequence: 0,
            length_counter: LengthCounter::new(),
        }
    }

    pub open spec fn write_4000_spec(self, value: u8) -> PulseChannel {
        PulseChannel {
            duty_cycle: value / 64,
            sequence: duty_sequence(value / 64),
            length_counter: LengthCounter { halted: (value / 32) % 2 == 1, ..self.length_counter },
            envelope: self.envelope.set_spec(value),
            ..self
        }
    }

    /// $4000 `DDLC VVVV`: duty cycle, length-counter halt (loop), constant volume, volume.
    pub fn write_4000(&mut self, value: u8)
        requires
            old(self).wf(),
        ensures
            *final(self) == old(self).write_4000_spec(value),
            final(self).wf(),
    {
        self.duty_cycle = value / 64;
        self.sequence = match self.duty_cycle {
            0 => 0b0100_0000,
            1 => 0b0110_0000,
            2 => 0b0111_1000,
            3 => 0b1011_1111,
            _ => 0b0100_0000,
        };
        let length_counter_halt = (value / 32) % 2 == 1;
        self.length_counter.set_halt(length_counter_halt);
        self.envelope.set(value);
    }

    pub open spec fn write_4001_spec(self, value: u8) -> PulseChannel {
        PulseChannel { sweep: self.sweep.set_spec(value), ..self }
    }

    /// $4001 `EPPP NSSS`: the sweep unit.
    pub fn write_4001(&mut self, value: u8)
        requires
            old(self).wf(),
        ensures
            *final(self) == old(self).write_4001_spec(value),
            final(self).wf(),
    {
        self.sweep.set(value);
    }

    pub open spec fn write_4002_spec(self, value: u8) -> PulseChannel {
        PulseChannel {
            seq_timer: SequenceTimer {
                reload_value: ((self.seq_timer.reload_value / 256) % 8 * 256 + value) as u16,
                ..self.seq_timer
        },
            ..self
        }
    }

    /// $4002: the low byte of the timer period.
    pub fn write_4002(&mut self, value: u8)
        requires
            old(self).wf(),
        ensures
            *final(self) == old(self).write_4002_spec(value),
            final(self).wf(),
    {
        self.seq_timer.set_reload_low(value);
    }

    pub open spec fn write_4003_spec(self, value: u8) -> PulseChannel {
        let reload = ((value % 8) * 256 + self.seq_timer.reload_value % 256) as u16;
        PulseChannel {
            length_counter: LengthCounter {
                value: length_table(value / 8),
                enabled: length_table(value / 8) > 0,
                ..self.length_counter
            },
            seq_timer: SequenceTimer { reload_value: reload, value: reload },
            envelope: Envelope { start: true, ..self.envelope },
            ..self
        }
    }

    /// $4003 `LLLL LTTT`: length-counter load and the high bits of the period; restarts the
    /// envelope and the timer.
    pub fn write_4003(&mut self, value: u8)
        requires
            old(self).wf(),
        ensures
            *final(self) == old(self).write_4003_spec(value),
            final(self).wf(),
    {
        let length_counter_load = value / 8;
        self.length_counter.set(length_counter_load);
        self.seq_timer.set_reload_high(value % 8);
        self.envelope.set_start_flag(true);
        self.seq_timer.reset();
    }

    /// Silences the channel: clears and halts its length counter.
    pub fn disable(&mut self)
        ensures
            *final(self) == (PulseChannel {
                length_counter: LengthCounter { enabled: false, halted: true, value: 0 },
                ..*old(self)
            }),
    {
        self.length_counter.set_enabled(false);
        self.length_counter.set_halt(true);
    }

    pub fn is_enabled(&self) -> (r: bool)
        ensures
            r == (self.length_counter.value > 0),
    {
        self.length_counter.output() > 0
    }

    /// Clocking keeps the period in 11 bits and the sweep shift in 3.
    pub proof fn lemma_clock_keeps_wf(self, quarter_frame_clock: bool, half_frame_clock: bool)
        requires
            self.wf(),
        ensures
            self.clocked(quarter_frame_clock, half_frame_clock).wf(),
    {
        reveal(PulseChannel::clocked);
        crate::apu::units::sweep::lemma_sweep_keeps_period_in_range(self.sweep, self.seq_timer.reload_value);
    }

    /// Clocked every APU cycle (half the CPU rate).
    pub fn clock(&mut self, quarter_frame_clock: bool, half_frame_clock: bool)
        requires
            old(self).wf(),
        ensures
            *final(self) == old(self).clocked(quarter_frame_clock, half_frame_clock),
            final(self).wf(),
    {
        reveal(PulseChannel::clocked);
        proof {
            lemma_wf_clock_defined(self.sweep, self.seq_timer.reload_value);
            crate::apu::units::sweep::lemma_sweep_keeps_period_in_range(self.sweep, self.seq_timer.reload_value);
        }
        let advance_waveform = self.seq_timer.clock();
        if advance_waveform {
            self.sequence = (self.sequence % 128) * 2 + self.sequence / 128;
        }
        if quarter_frame_clock {
            self.envelope.clock();
        }
        if half_frame_clock {
            self.length_counter.clock();
            let mut seq_timer_reload = self.seq_timer.get_reload();
            self.sweep.clock(&mut seq_timer_reload);
            self.seq_timer.set_reload(seq_timer_reload);
        }
    }

    pub fn sample(&self) -> (s: u8)
        ensures
            s == self.sample_spec(),
    {
        let seq_active = self.sequence >= 0b1000_0000;
        let vol = self.envelope.output();
        let len = self.length_counter.output();
        if !seq_active || len == 0 || self.seq_timer.output() < 8 {
            0
        } else {
            vol
        }
    }
}

/// A sweep whose shift fits in 3 bits computes its target without overflow on any 11-bit period.
pub proof fn lemma_wf_clock_defined(sweep: Sweep, timer: u16)
    requires
        sweep.shift < 8,
        timer <= 0x7FF,
    ensures
        sweep.checks_muting() ==> sweep.muting_defined(timer),
{
    let sh = sweep.shift;
    assert(timer <= 0x7FF && 1 <= sh ==> timer >> sh <= timer / 2) by (bit_vector);
}

/// The number of set bits of `b`.
pub open spec fn ones(b: u8) -> nat
    decreases b,
{
    if b == 0 { 0 } else { (b % 2) as nat + ones(b / 2) }
}

/// The duty waveforms: one, two and four of the eight steps high for duties 0, 1 and 2;
/// duty 3 plays `1011_1111`, seven steps high; an out-of-range duty plays as duty 0.
pub proof fn lemma_duty_cycles(d: u8)
    ensures
        duty_sequence(0) == 0x40 && ones(duty_sequence(0)) == 1,
        duty_sequence(1) == 0x60 && ones(duty_sequence(1)) == 2,
        duty_sequence(2) == 0x78 && ones(duty_sequence(2)) == 4,
        duty_sequence(3) == 0xBF && ones(duty_sequence(3)) == 7,
        d > 3 ==> duty_sequence(d) == duty_sequence(0),
{
    reveal_with_fuel(ones, 9);
}

} // verus!
