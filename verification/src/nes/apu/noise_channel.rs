use vstd::prelude::*;
use super::units::envelope::Envelope;
use super::units::length_counter::{length_table, LengthCounter};
use super::units::sequence_timer::SequenceTimer;

verus! {

#[derive(Clone, Copy, Debug, PartialEq, Eq, Structural)]
pub enum NoiseMode {
    /// 32767-step sequence (feedback from bit 1).
    Long,
    /// 93- or 91-step sequence (feedback from bit 6).
    Short,
}

/// The timer periods selectable through $400E.
pub open spec fn noise_period(i: u8) -> u16 {
    match i % 16 {
        0 => 4, 1 => 8, 2 => 16, 3 => 32, 4 => 64, 5 => 96, 6 => 128, 7 => 160,
        8 => 202, 9 => 254, 10 => 380, 11 => 508, 12 => 762, 13 => 1016, 14 => 2034, _ => 4068,
    }
}

fn noise_table(i: u8) -> (p: u16)
    ensures
        p == noise_period(i),
{
    match i % 16 {
        0 => 4, 1 => 8, 2 => 16, 3 => 32, 4 => 64, 5 => 96, 6 => 128, 7 => 160,
        8 => 202, 9 => 254, 10 => 380, 11 => 508, 12 => 762, 13 => 1016, 14 => 2034, _ => 4068,
    }
}

/// One step of the linear-feedback shift register: bit 0 XOR the tap shifted in at bit 14.
pub open spec fn shifted_noise(shifter: u16, mode: NoiseMode) -> u16 {
    let tap: u16 = match mode {
        NoiseMode::Long => (shifter >> 1u16) & 1,
        NoiseMode::Short => (shifter >> 6u16) & 1,
    };
    (((shifter & 1) ^ tap) << 14u16) | (shifter >> 1u16)
}

/// The noise channel: a pseudo-random bit stream gated by the envelope and length counter.
#[derive(Clone, Copy)]
pub struct NoiseChannel {
    pub seq_timer: SequenceTimer,
    pub length_counter: LengthCounter,
    pub envelope: Envelope,
    pub mode: NoiseMode,
    pub shifter: u16,
}

impl NoiseChannel {
    #[verifier::opaque]
    pub open spec fn clocked(self, quarter_frame_clock: bool, half_frame_clock: bool) -> NoiseChannel {
        NoiseChannel {
            envelope: if quarter_frame_clock { self.envelope.clock_spec() } else { self.envelope },
            length_counter: if half_frame_clock { self.length_counter.clocked() } else { self.length_counter },
            seq_timer: self.seq_timer.clocked(),
            shifter: if self.seq_timer.fires() { shifted_noise(self.shifter, self.mode) } else { self.shifter },
            ..self
        }
    }

    pub open spec fn sample_spec(self) -> u8 {
        if self.length_counter.value == 0 || self.shifter & 1 != 0 {
            0
        } else {
            self.envelope.output_spec()
        }
    }

    pub open spec fn new_spec() -> NoiseChannel {
        NoiseChannel {
            seq_timer: SequenceTimer { reload_value: 0, value: 0 },
            length_counter: LengthCounter { enabled: false, halted: false, value: 0 },
            envelope: Envelope::new_spec(),
            mode: NoiseMode::Long,
            shifter: 0x7FFF,
        }
    }

    pub fn new() -> (c: NoiseChannel)
        ensures
            c == NoiseChannel::new_spec(),
    {
        NoiseChannel {
            seq_timer: SequenceTimer::new(),
            length_counter: LengthCounter::new(),
            envelope: Envelope::new(),
            mode: NoiseMode::Long,
            shifter: 0x7FFF,
        }
    }

    pub open spec fn write_400c_spec(self, value: u8) -> NoiseChannel {
        NoiseChannel {
            envelope: self.envelope.set_spec(value),
            length_counter: LengthCounter { halted: (value / 32) % 2 == 1, ..self.length_counter },
            ..self
        }
    }

    /// $400C `--LC VVVV`: length-counter halt, constant volume, volume.
    pub fn write_400c(&mut self, value: u8)
        ensures
            *final(self) == old(self).write_400c_spec(value),
    {
        let length_counter_halt = (value / 32) % 2 == 1;
        self.envelope.set(value);
        self.length_counter.set_halt(length_counter_halt);
    }

    pub open spec fn write_400e_spec(self, value: u8) -> NoiseChannel {
        NoiseChannel {
            mode: if value < 128 { NoiseMode::Long } else { NoiseMode::Short },
            seq_timer: SequenceTimer { reload_value: noise_period(value % 16), ..self.seq_timer },
            ..self
        }
    }

    /// $400E `M--- PPPP`: mode and period index.
    pub fn write_400e(&mut self, value: u8)
        ensures
            *final(self) == old(self).write_400e_spec(value),
    {
        self.mode = if value < 0b1000_0000 {
            NoiseMode::Long
        } else {
            NoiseMode::Short
        };
        let timer_period = value % 16;
        self.seq_timer.set_reload(noise_table(timer_period));
    }

    pub open spec fn write_400f_spec(self, value: u8) -> NoiseChannel {
        NoiseChannel {
            length_counter: LengthCounter {
                value: length_table(value / 8),
                enabled: length_table(value / 8) > 0,
                ..self.length_counter
        },
            envelope: Envelope { start: false, decay: 15, divider: self.envelope.period, ..self.envelope },
            ..self
        }
    }

    /// $400F `LLLL L---`: length-counter load; restarts the envelope.
    pub fn write_400f(&mut self, value: u8)
        ensures
            *final(self) == old(self).write_400f_spec(value),
    {
        let length_counter_load = value / 8;
        self.length_counter.set(length_counter_load);
        self.envelope.start();
    }

    pub fn disable(&mut self)
        ensures
            *final(self) == (NoiseChannel {
                length_counter: LengthCounter { enabled: false, halted: true, value: 0 },
                ..*old(self)
            }),
    {
        self.length_counter.set_enabled(false);
        self.length_counter.set_halt(true);
    }

    pub fn is_enabled(&self) -> (r: bool)
        ensures
            r == (self.length_counter.value > 0),
    {
        self.length_counter.output() > 0
    }

    fn shift_noise(&mut self)
        ensures
            *final(self) == (NoiseChannel { shifter: shifted_noise(old(self).shifter, old(self).mode), ..*old(self) }),
    {
        let feedback: u16 = match self.mode {
            NoiseMode::Long => {
                let a = self.shifter & 1;
                let b = (self.shifter >> 1u16) & 1;
                a ^ b
            },
            NoiseMode::Short => {
                let a = self.shifter & 1;
                let b = (self.shifter >> 6u16) & 1;
                a ^ b
            },
        };
        self.shifter = (feedback << 14u16) | (self.shifter >> 1u16);
    }

    pub fn clock(&mut self, quarter_frame_clock: bool, half_frame_clock: bool)
        ensures
            *final(self) == old(self).clocked(quarter_frame_clock, half_frame_clock),
    {
        reveal(NoiseChannel::clocked);
        if quarter_frame_clock {
            self.envelope.clock();
        }
        if half_frame_clock {
            self.length_counter.clock();
        }
        if self.seq_timer.clock() {
            self.shift_noise();
        }
    }

    pub fn sample(&self) -> (s: u8)
        ensures
            s == self.sample_spec(),
    {
        if self.length_counter.output() == 0 || (self.shifter & 1) != 0 {
            0
        } else {
            self.envelope.output()
        }
    }
}

/// A 15-bit shift register that is not all zeros never becomes all zeros: either a set
/// bit above bit 0 survives the shift, or bit 0 alone feeds a 1 back into bit 14.
pub proof fn lemma_noise_never_zero(shifter: u16, mode: NoiseMode)
    requires
        0 < shifter < 0x8000,
    ensures
        0 < shifted_noise(shifter, mode) < 0x8000,
{
    lemma_noise_stays_15_bit(shifter, mode);
    assert(0 < shifter < 0x8000 ==> (((shifter & 1) ^ ((shifter >> 1u16) & 1)) << 14u16) | (shifter >> 1u16) != 0)
        by (bit_vector);
    assert(0 < shifter < 0x8000 ==> (((shifter & 1) ^ ((shifter >> 6u16) & 1)) << 14u16) | (shifter >> 1u16) != 0)
        by (bit_vector);
}

/// Clocking the channel keeps a non-zero 15-bit shift register non-zero and within 15 bits.
pub proof fn lemma_clock_keeps_shifter_nonzero(n: NoiseChannel, quarter_frame_clock: bool, half_frame_clock: bool)
    requires
        0 < n.shifter < 0x8000,
    ensures
        0 < n.clocked(quarter_frame_clock, half_frame_clock).shifter < 0x8000,
{
    reveal(NoiseChannel::clocked);
    lemma_noise_never_zero(n.shifter, n.mode);
}

/// The shift register never leaves 15 bits.
pub proof fn lemma_noise_stays_15_bit(shifter: u16, mode: NoiseMode)
    requires
        shifter < 0x8000,
    ensures
        shifted_noise(shifter, mode) < 0x8000,
{
    let tap: u16 = match mode {
        NoiseMode::Long => (shifter >> 1u16) & 1,
        NoiseMode::Short => (shifter >> 6u16) & 1,
    };
    assert(tap <= 1) by {
        assert((shifter >> 1u16) & 1 <= 1) by (bit_vector);
        assert((shifter >> 6u16) & 1 <= 1) by (bit_vector);
    }
    assert(shifter < 0x8000 && tap <= 1 ==> (((shifter & 1) ^ tap) << 14u16) | (shifter >> 1u16) < 0x8000)
        by (bit_vector);
}

/// A $400E write `M--- PPPP` selects the short (93-step) sequence exactly when bit 7 is
/// set and the long one when it is clear, and sets the timer period from the low four
/// bits by the NTSC table (4, 8, 16, 32, 64, 96, 128, 160, 202, 254, 380, 508, 762, 1016,
/// 2034, 4068); the envelope, length counter and shift register stay.
pub proof fn lemma_write_400e(n: NoiseChannel, value: u8)
    ensures
        ({
            let w = n.write_400e_spec(value);
            let periods = seq![4u16, 8, 16, 32, 64, 96, 128, 160, 202, 254, 380, 508, 762, 1016, 2034, 4068];
            &&& (w.mode == NoiseMode::Short) == (value & 0x80 != 0)
            &&& (w.mode == NoiseMode::Long) == (value & 0x80 == 0)
            &&& w.seq_timer.reload_value == periods[(value & 0x0F) as int]
            &&& w.envelope == n.envelope && w.length_counter == n.length_counter && w.shifter == n.shifter
        }),
{
    assert((value & 0x80 != 0) == (value >= 128) && value & 0x0F == value % 16) by (bit_vector);
}

/// One step of the shift register moves every bit down by one and feeds bit 0 XOR the tap
/// (bit 1 in long mode, bit 6 in short mode) in at bit 14.
pub proof fn lemma_noise_feedback(shifter: u16, mode: NoiseMode)
    requires
        shifter < 0x8000,
    ensures
        ({
            let k: u16 = if mode == NoiseMode::Long { 1 } else { 6 };
            let r = shifted_noise(shifter, mode);
            &&& (r >> 14u16) & 1 == (shifter & 1) ^ ((shifter >> k) & 1)
            &&& r & 0x3FFF == (shifter >> 1u16) & 0x3FFF
            &&& r < 0x8000
        }),
{
    let k: u16 = if mode == NoiseMode::Long { 1 } else { 6 };
    let tap: u16 = (shifter >> k) & 1;
    assert(tap <= 1) by (bit_vector)
        requires
            tap == (shifter >> k) & 1,
    ;
    let r = (((shifter & 1) ^ tap) << 14u16) | (shifter >> 1u16);
    assert(shifted_noise(shifter, mode) == r);
    assert((r >> 14u16) & 1 == (shifter & 1) ^ tap && r & 0x3FFF == (shifter >> 1u16) & 0x3FFF && r < 0x8000)
        by (bit_vector)
        requires
            shifter < 0x8000,
            tap <= 1,
            r == (((shifter & 1) ^ tap) << 14u16) | (shifter >> 1u16),
    ;
}

} // verus!
