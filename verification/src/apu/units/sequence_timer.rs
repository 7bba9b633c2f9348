use vstd::prelude::*;

verus! {

/// A down-counter that reloads from an 11-bit period and signals each reload.
#[derive(Clone, Copy)]
pub struct SequenceTimer {
    pub reload_value: u16,
    pub value: u16,
}

impl SequenceTimer {
    /// Whether the next clock reloads (and steps the waveform).
    pub open spec fn fires(self) -> bool {
        self.value == 0
    }

    /// The timer after one clock.
    pub open spec fn clocked(self) -> SequenceTimer {
        if self.value == 0 {
            SequenceTimer { value: self.reload_value, ..self }
        } else {
            SequenceTimer { value: (self.value - 1) as u16, ..self }
        }
    }

    pub fn new() -> (t: SequenceTimer)
        ensures
            t.reload_value == 0,
            t.value == 0,
    {
        SequenceTimer { reload_value: 0, value: 0 }
    }

    pub fn set_reload(&mut self, reload_value: u16)
        ensures
            final(self).reload_value == reload_value,
            final(self).value == old(self).value,
    {
        self.reload_value = reload_value;
    }

    /// Replaces the high byte of the period.
    pub fn set_reload_high(&mut self, hi: u8)
        ensures
            final(self).reload_value == hi * 256 + old(self).reload_value % 256,
            final(self).value == old(self).value,
    {
        self.reload_value = (self.reload_value % 256) + (hi as u16) * 256;
    }

    /// Replaces the low byte of the period, keeping its bits 8 to 10.
    pub fn set_reload_low(&mut self, lo: u8)
        ensures
            final(self).reload_value == (old(self).reload_value / 256) % 8 * 256 + lo,
            final(self).value == old(self).value,
    {
        self.reload_value = (self.reload_value / 256) % 8 * 256 + lo as u16;
    }

    /// Counts down; at zero reloads and returns `true` (the waveform generator steps).
    pub fn clock(&mut self) -> (step: bool)
        ensures
            step == old(self).fires(),
            *final(self) == old(self).clocked(),
    {
        if self.value == 0 {
            self.value = self.reload_value;
            true
        } else {
            self.value -= 1;
            false
        }
    }

    pub fn reset(&mut self)
        ensures
            final(self).value == old(self).reload_value,
            final(self).reload_value == old(self).reload_value,
    {
        self.value = self.reload_value;
    }

    pub fn output(&self) -> (v: u16)
        ensures
            v == self.value,
    {
        self.value
    }

    pub fn get_reload(&self) -> (r: u16)
        ensures
            r == self.reload_value,
    {
        self.reload_value
    }

    pub fn get_reload_low_bits(&self) -> (r: u8)
        ensures
            r == self.reload_value % 256,
    {
        (self.reload_value % 256) as u8
    }

    pub fn get_reload_high_bits(&self) -> (r: u8)
        ensures
            r == self.reload_value / 256,
    {
        (self.reload_value / 256) as u8
    }
}

/// Starting from a reset, the timer signals again after exactly `reload_value + 1` clocks:
/// each of the first `reload_value` clocks counts down without signalling.
pub proof fn lemma_timer_counts_down(t: SequenceTimer, k: u16)
    requires
        t.value == t.reload_value,
        k < t.reload_value,
    ensures
        ({
            let v = (t.value - k) as u16;
            v != 0 && (v - 1) as u16 == t.reload_value - k - 1
        }),
{
}

} // verus!
