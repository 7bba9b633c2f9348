use vstd::prelude::*;

verus! {

/// The NES length-counter load table, indexed by the five bits written to a channel.
pub open spec fn length_table(i: u8) -> u8 {
    match i % 32 {
        0 => 10, 1 => 254, 2 => 20, 3 => 2, 4 => 40, 5 => 4, 6 => 80, 7 => 6,
        8 => 160, 9 => 8, 10 => 60, 11 => 10, 12 => 14, 13 => 12, 14 => 26, 15 => 14,
        16 => 12, 17 => 16, 18 => 24, 19 => 18, 20 => 48, 21 => 20, 22 => 96, 23 => 22,
        24 => 192, 25 => 24, 26 => 72, 27 => 26, 28 => 16, 29 => 28, 30 => 32, _ => 30,
    }
}

fn count_lookup(i: u8) -> (r: u8)
    ensures
        r == length_table(i),
{
    match i % 32 {
        0 => 10, 1 => 254, 2 => 20, 3 => 2, 4 => 40, 5 => 4, 6 => 80, 7 => 6,
        8 => 160, 9 => 8, 10 => 60, 11 => 10, 12 => 14, 13 => 12, 14 => 26, 15 => 14,
        16 => 12, 17 => 16, 18 => 24, 19 => 18, 20 => 48, 21 => 20, 22 => 96, 23 => 22,
        24 => 192, 25 => 24, 26 => 72, 27 => 26, 28 => 16, 29 => 28, 30 => 32, _ => 30,
    }
}

/// Silences a channel after a programmed duration, unless halted.
#[derive(Clone, Copy)]
pub struct LengthCounter {
    pub enabled: bool,
    pub halted: bool,
    pub value: u8,
}

impl LengthCounter {
    /// The counter after one half-frame clock.
    pub open spec fn clocked(self) -> LengthCounter {
        if !self.halted && self.value > 0 {
            LengthCounter { value: (self.value - 1) as u8, ..self }
        } else {
            self
        }
    }

    pub fn new() -> (lc: LengthCounter)
        ensures
            !lc.enabled,
            !lc.halted,
            lc.value == 0,
    {
        LengthCounter { enabled: false, halted: false, value: 0 }
    }

    /// Disabling clears the count.
    pub fn set_enabled(&mut self, enabled: bool)
        ensures
            final(self).enabled == enabled,
            final(self).halted == old(self).halted,
            final(self).value == if enabled { old(self).value } else { 0 },
    {
        self.enabled = enabled;
        if !self.enabled {
            self.value = 0;
        }
    }

    pub fn set_halt(&mut self, halted: bool)
        ensures
            final(self).halted == halted,
            final(self).enabled == old(self).enabled,
            final(self).value == old(self).value,
    {
        self.halted = halted;
    }

    /// Loads the count from the table entry `pos` (five bits).
    pub fn set(&mut self, pos: u8)
        ensures
            final(self).value == length_table(pos),
            final(self).enabled == (length_table(pos) > 0),
            final(self).halted == old(self).halted,
    {
        self.value = count_lookup(pos % 32);
        self.enabled = self.value > 0;
    }

    /// Counts down unless halted or at zero; returns whether the count is still running.
    pub fn clock(&mut self) -> (running: bool)
        ensures
            *final(self) == old(self).clocked(),
            running == (final(self).value > 0),
    {
        if !self.halted && self.value > 0 {
            self.value -= 1;
        }
        self.value > 0
    }

    pub fn output(&self) -> (v: u8)
        ensures
            v == self.value,
    {
        self.value
    }
}

/// Once at zero, the count stays at zero however it is clocked.
pub proof fn lemma_zero_is_absorbing(lc: LengthCounter)
    requires
        lc.value == 0,
    ensures
        lc.clocked().value == 0,
{
}

/// The length table read through the five-bit index of a $4003/$4007/$400B/$400F write:
/// an odd index `i` loads `i - 1` (index 1 loads 254); the even indices load the note
/// lengths 10, 20, 40, 80, 160, 60, 14, 26, 12, 24, 48, 96, 192, 72, 16, 32 in turn.
pub proof fn lemma_length_table(i: u8)
    ensures
        i % 2 == 1 && i % 32 != 1 ==> length_table(i) == i % 32 - 1,
        i % 32 == 1 ==> length_table(i) == 254,
        i % 2 == 0 ==> length_table(i)
            == seq![10u8, 20, 40, 80, 160, 60, 14, 26, 12, 24, 48, 96, 192, 72, 16, 32][((i % 32) / 2) as int],
{
}

} // verus!
