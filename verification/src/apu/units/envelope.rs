use vstd::prelude::*;

verus! {

/// The volume envelope: a decay level from 15 to 0 stepped by a divider, or a constant volume.
#[derive(Clone, Copy)]
pub struct Envelope {
    pub start: bool,
    pub divider: u8,
    pub decay: u8,
    pub constant_volume: u8,
    pub loop_flag: bool,
    pub disable: bool,
    pub period: u8,
}

impl Envelope {
    /// One quarter-frame clock: a pending start restarts the decay at 15; otherwise the
    /// divider counts down, and at zero reloads and steps the decay (wrapping to 15 when looping).
    pub open spec fn clock_spec(self) -> Envelope {
        if self.start {
            Envelope { start: false, decay: 15, divider: self.period, ..self }
        } else if self.divider == 0 {
            Envelope {
                divider: self.period,
                decay: if self.decay > 0 {
                    (self.decay - 1) as u8
                } else if self.loop_flag {
                    15
                } else {
                    self.decay
                },
                ..self
            }
        } else {
            Envelope { divider: (self.divider - 1) as u8, ..self }
        }
    }

    pub open spec fn new_spec() -> Envelope {
        Envelope {
            start: false,
            divider: 0,
            decay: 0,
            constant_volume: 0,
            loop_flag: false,
            disable: false,
            period: 0,
        }
    }

    /// The envelope after `value` is written to its register.
    pub open spec fn set_spec(self, value: u8) -> Envelope {
        Envelope {
            period: value % 16,
            constant_volume: value % 16,
            loop_flag: (value / 32) % 2 == 1,
            disable: (value / 16) % 2 == 1,
            ..self
        }
    }

    pub open spec fn output_spec(self) -> u8 {
        if self.disable {
            self.constant_volume
        } else {
            self.decay
        }
    }

    pub fn new() -> (e: Envelope)
        ensures
            e == Envelope::new_spec(),
    {
        Envelope {
            start: false,
            divider: 0,
            decay: 0,
            constant_volume: 0,
            loop_flag: false,
            disable: false,
            period: 0,
        }
    }

    /// Restarts the decay at 15 and reloads the divider.
    pub fn start(&mut self)
        ensures
            *final(self) == (Envelope { start: false, decay: 15, divider: old(self).period, ..*old(self) }),
    {
        self.start = false;
        self.decay = 15;
        self.divider = self.period;
    }

    /// Loads `--LC VVVV`: loop (L), constant volume (C) and the period / volume (V).
    pub fn set(&mut self, value: u8)
        ensures
            *final(self) == old(self).set_spec(value),
    {
        self.period = value % 16;
        self.constant_volume = self.period;
        self.loop_flag = (value / 32) % 2 == 1;
        self.disable = (value / 16) % 2 == 1;
    }

    /// Called by the quarter-frame clock.
    pub fn clock(&mut self)
        ensures
            *final(self) == old(self).clock_spec(),
    {
        if self.start {
            self.start = false;
            self.decay = 15;
            self.divider = self.period;
        } else {
            if self.divider == 0 {
                self.divider = self.period;
                if self.decay > 0 {
                    self.decay -= 1;
                } else if self.loop_flag {
                    self.decay = 15;
                }
            } else {
                self.divider -= 1;
            }
        }
    }

    pub fn output(&self) -> (v: u8)
        ensures
            v == self.output_spec(),
    {
        if self.disable {
            self.constant_volume
        } else {
            self.decay
        }
    }
}

/// The decay level never leaves 0..=15 once it is there.
pub proof fn lemma_decay_stays_in_range(e: Envelope)
    requires
        e.decay <= 15,
    ensures
        e.clock_spec().decay <= 15,
{
}

} // verus!
