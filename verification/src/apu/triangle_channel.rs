use vstd::prelude::*;
use crate::apu::units::length_counter::{length_table, LengthCounter};
use crate::apu::units::sequence_timer::SequenceTimer;

verus! {

/// The 32-step triangle waveform: 15 down to 0, then 0 up to 15.
pub open spec fn triangle_level(i: u8) -> u8 {
    if i < 16 {
        (15 - i) as u8
    } else {
        (i - 16) as u8
    }
}

/// The triangle channel, gated by a linear counter and a length counter.
#[derive(Clone, Copy)]
pub struct TriangleChannel {
    pub sequence_timer: SequenceTimer,
    pub length_counter: LengthCounter,
    pub linear_counter_reload_flag: bool,
    pub sequence_index: u8,
    /// $4008 C (1 bit).
    pub linear_counter_control_flag: bool,
    /// $4008 RRRR RRR (7 bits).
    pub linear_counter_reload_value: u8,
    pub linear_counter_value: u8,
}

impl TriangleChannel {
    /// The waveform position stays within its 32 steps.
    pub open spec fn wf(self) -> bool {
        self.sequence_index < 32
    }

    pub open spec fn clocked(self, quarter_frame_clock: bool) -> TriangleChannel {
        let advance = self.sequence_timer.fires() && self.linear_counter_value > 0 && self.length_counter.value > 0;
        let c = TriangleChannel {
            sequence_timer: self.sequence_timer.clocked(),
            sequence_index: if advance { ((self.sequence_index + 1) % 32) as u8 } else { self.sequence_index },
            ..self
        };
        if quarter_frame_clock {
            TriangleChannel {
                linear_counter_value: if c.linear_counter_reload_flag {
                    c.linear_counter_reload_value
                } else if c.linear_counter_value > 0 {
                    (c.linear_counter_value - 1) as u8
                } else {
                    c.linear_counter_value
                },
                linear_counter_reload_flag: c.linear_counter_reload_flag && c.linear_counter_control_flag,
                ..c
            }
        } else {
            c
        }
    }

    pub open spec fn new_spec() -> TriangleChannel {
        TriangleChannel {
            sequence_timer: SequenceTimer { reload_value: 0, value: 0 },
            length_counter: LengthCounter { enabled: false, halted: false, value: 0 },
            linear_counter_reload_flag: false,
            sequence_index: 0,
            linear_counter_control_flag: false,
            linear_counter_reload_value: 0,
            linear_counter_value: 0,
        }
    }

    pub fn new() -> (c: TriangleChannel)
        ensures
            c.wf(),
            c == TriangleChannel::new_spec(),
    {
        TriangleChannel {
            sequence_timer: SequenceTimer::new(),
            length_counter: LengthCounter::new(),
            linear_counter_reload_flag: false,
            sequence_index: 0,
            linear_counter_control_flag: false,
            linear_counter_reload_value: 0,
            linear_counter_value: 0,
        }
    }

    pub open spec fn write_4008_spec(self, value: u8) -> TriangleChannel {
        TriangleChannel {
            linear_counter_control_flag: value >= 128,
            linear_counter_reload_value: value % 128,
            length_counter: LengthCounter { halted: true, ..self.length_counter },
            ..self
        }
    }

    /// $4008 `CRRR RRRR`: linear-counter control and reload value; halts the length counter.
    pub fn write_4008(&mut self, value: u8)
        ensures
            *final(self) == old(self).write_4008_spec(value),
    {
        self.linear_counter_control_flag = value >= 0b1000_0000;
        self.linear_counter_reload_value = value % 128;
        self.length_counter.set_halt(true);
    }

    pub open spec fn write_400a_spec(self, value: u8) -> TriangleChannel {
        TriangleChannel {
            sequence_timer: SequenceTimer {
                reload_value: ((self.sequence_timer.reload_value / 256) % 8 * 256 + value) as u16,
                ..self.sequence_timer
        },
            ..self
        }
    }

    /// $400A: the low byte of the timer period.
    pub fn write_400a(&mut self, value: u8)
        ensures
            *final(self) == old(self).write_400a_spec(value),
    {
        self.sequence_timer.set_reload_low(value);
    }

    pub open spec fn write_400b_spec(self, value: u8) -> TriangleChannel {
        TriangleChannel {
            length_counter: LengthCounter {
                value: length_table(value / 8),
                enabled: length_table(value / 8) > 0,
                ..self.length_counter
        },
            sequence_timer: SequenceTimer {
                reload_value: ((value % 8) * 256 + self.sequence_timer.reload_value % 256) as u16,
                ..self.sequence_timer
        },
            linear_counter_reload_flag: true,
            ..self
        }
    }

    /// $400B `LLLL LTTT`: length-counter load and the high bits of the period; requests a
    /// linear-counter reload.
    pub fn write_400b(&mut self, value: u8)
        ensures
            *final(self) == old(self).write_400b_spec(value),
    {
        let length_counter_load = value / 8;
        self.length_counter.set(length_counter_load);
        let timer_high = value % 8;
        self.sequence_timer.set_reload_high(timer_high);
        self.linear_counter_reload_flag = true;
    }

    pub fn disable(&mut self)
        ensures
            *final(self) == (TriangleChannel {
                length_counter: LengthCounter { enabled: false, halted: true, value: 0 },
                ..*old(self)
            }),
    {
        self.length_counter.set_enabled(false);
        self.length_counter.set_halt(true);
    }

    pub fn is_enabled(&self) -> (r: bool)
        ensures
            r == (self.length_counter.value > 0),
    {
        self.length_counter.output() > 0
    }

    /// Clocking keeps the waveform index within its 32 steps.
    pub proof fn lemma_clock_keeps_wf(self, quarter_frame_clock: bool)
        requires
            self.wf(),
        ensures
            self.clocked(quarter_frame_clock).wf(),
    {
    }

    pub fn clock(&mut self, quarter_frame_clock: bool)
        requires
            old(self).wf(),
        ensures
            *final(self) == old(self).clocked(quarter_frame_clock),
            final(self).wf(),
    {
        let advance_waveform = self.sequence_timer.clock();
        if advance_waveform && self.linear_counter_value > 0 && self.length_counter.output() > 0 {
            self.sequence_index = (self.sequence_index + 1) % 32;
        }
        if quarter_frame_clock {
            if self.linear_counter_reload_flag {
                self.linear_counter_value = self.linear_counter_reload_value;
            } else if self.linear_counter_value > 0 {
                self.linear_counter_value -= 1;
            }
            if !self.linear_counter_control_flag {
                self.linear_counter_reload_flag = false;
            }
        }
    }

    pub fn sample(&self) -> (s: u8)
        requires
            self.wf(),
        ensures
            s == triangle_level(self.sequence_index),
    {
        let i = self.sequence_index;
        if i < 16 {
            15 - i
        } else {
            i - 16
        }
    }
}

/// The triangle's 32-step waveform falls from 15 to 0 and rises back from 0 to 15: the
/// second half mirrors the first.
pub proof fn lemma_triangle_waveform(i: u8)
    requires
        i < 32,
    ensures
        i < 16 ==> triangle_level(i) == 15 - i,
        i >= 16 ==> triangle_level(i) == i - 16,
        triangle_level(i) == triangle_level((31 - i) as u8),
        triangle_level(i) <= 15,
{
}

} // verus!
