use vstd::prelude::*;

verus! {

/// Pulse 1 negates in one's complement, pulse 2 in two's complement.
#[derive(Clone, Copy, Debug, PartialEq, Eq, Structural)]
pub enum PulseType {
    Pulse1,
    Pulse2,
}

/// The sweep unit, which bends a pulse channel's period up or down.
#[derive(Clone, Copy)]
pub struct Sweep {
    pub pulse_type: PulseType,
    pub enabled: bool,
    pub reload: bool,
    pub period: u8,
    pub negate: bool,
    pub shift: u8,
    /// Counts down.
    pub divider: u8,
    /// Whether the sweep would silence the channel.
    pub mute: bool,
}

impl Sweep {
    /// The period the sweep would move `timer` to.
    pub open spec fn target_spec(self, timer: u16) -> int {
        let change = timer >> self.shift;
        if self.negate {
            match self.pulse_type {
                PulseType::Pulse1 => timer - change - 1,
                PulseType::Pulse2 => timer - change,
            }
        } else {
            timer + change
        }
    }

    /// A period under 8, or a target beyond 11 bits, silences the channel.
    pub open spec fn is_muting_spec(self, timer: u16) -> bool {
        timer < 8 || self.target_spec(timer) > 0x7FF
    }

    /// The inputs on which `is_muting` computes its target without overflow.
    pub open spec fn muting_defined(self, timer: u16) -> bool {
        timer < 8 || (self.shift < 16 && 0 <= self.target_spec(timer) <= 0xFFFF)
    }

    /// Whether a clock will evaluate the muting test.
    pub open spec fn checks_muting(self) -> bool {
        self.divider == 0 && self.enabled && self.shift > 0
    }

    /// The period after one half-frame clock of the sweep.
    pub open spec fn clocked_timer(self, timer: u16) -> u16 {
        if self.checks_muting() && !self.is_muting_spec(timer) {
            let change = timer >> self.shift;
            if self.negate {
                match self.pulse_type {
                    PulseType::Pulse1 => if change > timer - 1 { 0 } else { (timer - change - 1) as u16 },
                    PulseType::Pulse2 => if change > timer { 0 } else { (timer - change) as u16 },
                }
            } else {
                (timer + change) as u16
            }
        } else {
            timer
        }
    }

    /// The sweep after one half-frame clock: the divider reloads at zero or on request.
    pub open spec fn clocked(self) -> Sweep {
        if self.divider == 0 || self.reload {
            Sweep { divider: self.period, reload: false, ..self }
        } else {
            Sweep { divider: (self.divider - 1) as u8, ..self }
        }
    }

    /// The sweep after `value` is written to its register.
    pub open spec fn set_spec(self, value: u8) -> Sweep {
        Sweep {
                enabled: value >= 128,
                period: (value / 16) % 8,
                negate: (value / 8) % 2 == 1,
                shift: value % 8,
                reload: true,
                ..self
        }
    }

    pub open spec fn new_spec(pulse_type: PulseType) -> Sweep {
        Sweep {
            pulse_type,
            enabled: false,
            reload: false,
            period: 0,
            negate: false,
            shift: 0,
            divider: 0,
            mute: false,
        }
    }

    pub fn new(pulse_type: PulseType) -> (s: Sweep)
        ensures
            s == Sweep::new_spec(pulse_type),
    {
        Sweep {
            pulse_type,
            enabled: false,
            reload: false,
            period: 0,
            negate: false,
            shift: 0,
            divider: 0,
            mute: false,
        }
    }

    /// Loads `EPPP NSSS`: enable, period, negate, shift; the divider reloads on the next clock.
    pub fn set(&mut self, value: u8)
        ensures
            *final(self) == old(self).set_spec(value),
    {
        self.enabled = value >= 0b1000_0000;
        self.period = (value / 16) % 8;
        self.negate = (value / 8) % 2 == 1;
        self.shift = value % 8;
        self.reload = true;
    }

    /// One half-frame clock: moves `timer` towards the target unless muting, then steps the divider.
    pub fn clock(&mut self, timer: &mut u16)
        requires
            old(self).checks_muting() ==> old(self).muting_defined(*old(timer)),
        ensures
            *final(timer) == old(self).clocked_timer(*old(timer)),
            *final(self) == old(self).clocked(),
    {
        let mut apply_change = false;
        if self.divider == 0 {
            if self.enabled && self.shift > 0 && !self.is_muting(*timer) {
                apply_change = true;
            }
        }
        if apply_change {
            let t = *timer;
            let change = t >> self.shift;
            proof {
                lemma_shift_right_le(t, self.shift);
            }
            let target = if self.negate {
                match self.pulse_type {
                    PulseType::Pulse1 => {
                        if change > t - 1 {
                            0
                        } else {
                            t - change - 1
                        }
                    },
                    PulseType::Pulse2 => {
                        if change > t {
                            0
                        } else {
                            t - change
                        }
                    },
                }
            } else {
                t + change
            };
            *timer = target;
        }
        if self.divider == 0 || self.reload {
            self.divider = self.period;
            self.reload = false;
        } else {
            self.divider -= 1;
        }
    }

    pub fn is_muting(&self, timer: u16) -> (m: bool)
        requires
            self.muting_defined(timer),
        ensures
            m == self.is_muting_spec(timer),
    {
        if timer < 8 {
            return true;
        }
        let change = timer >> self.shift;
        let target = if self.negate {
            match self.pulse_type {
                PulseType::Pulse1 => timer - change - 1,
                PulseType::Pulse2 => timer - change,
            }
        } else {
            timer + change
        };
        // The period must fit in 11 bits.
        target > 0x7FF
    }

    pub fn set_enabled(&mut self, enabled: bool)
        ensures
            *final(self) == (Sweep { enabled, ..*old(self) }),
    {
        self.enabled = enabled;
    }

    pub fn is_enabled(&self) -> (r: bool)
        ensures
            r == self.enabled,
    {
        self.enabled
    }

    pub fn set_period(&mut self, period: u8)
        ensures
            *final(self) == (Sweep { period, ..*old(self) }),
    {
        self.period = period;
    }

    pub fn get_period(&self) -> (r: u8)
        ensures
            r == self.period,
    {
        self.period
    }

    pub fn set_shift(&mut self, shift: u8)
        ensures
            *final(self) == (Sweep { shift, ..*old(self) }),
    {
        self.shift = shift;
    }

    pub fn get_shift(&self) -> (r: u8)
        ensures
            r == self.shift,
    {
        self.shift
    }

    pub fn get_negate_flag(&self) -> (r: bool)
        ensures
            r == self.negate,
    {
        self.negate
    }
}

/// An applied sweep always leaves the period within 11 bits.
pub proof fn lemma_sweep_keeps_period_in_range(s: Sweep, timer: u16)
    requires
        timer <= 0x7FF,
    ensures
        s.clocked_timer(timer) <= 0x7FF,
{
    lemma_shift_right_le(timer, s.shift);
}

proof fn lemma_shift_right_le(t: u16, s: u8)
    ensures
        t >> s <= t,
{
    assert(t >> s <= t) by (bit_vector);
}

/// The sweep's target period: without negation it adds `timer >> shift` to the period;
/// with negation it subtracts it, pulse 1 (one's complement) ending one lower than pulse
/// 2 (two's complement). A period under 8 always mutes. The register `EPPP NSSS` enables
/// with bit 7, takes the divider period from bits 4-6, negates with bit 3 and shifts by
/// bits 0-2, and asks for a divider reload.
pub proof fn lemma_sweep_target(s: Sweep, timer: u16, value: u8)
    requires
        s.shift < 16,
    ensures
        !s.negate ==> s.target_spec(timer) == timer + (timer >> s.shift) && s.target_spec(timer) >= timer,
        s.negate ==> s.target_spec(timer) <= timer,
        s.negate ==> (Sweep { pulse_type: PulseType::Pulse1, ..s }).target_spec(timer)
            == (Sweep { pulse_type: PulseType::Pulse2, ..s }).target_spec(timer) - 1,
        s.negate && s.pulse_type == PulseType::Pulse2 ==> s.target_spec(timer) == timer - (timer >> s.shift),
        timer < 8 ==> s.is_muting_spec(timer),
        ({
            let w = s.set_spec(value);
            &&& w.enabled == (value >= 128)
            &&& w.period == (value / 16) % 8
            &&& w.negate == ((value / 8) % 2 == 1)
            &&& w.shift == value % 8
            &&& w.reload
            &&& w.pulse_type == s.pulse_type
        }),
{
    let sh = s.shift;
    assert(timer >> sh <= timer) by (bit_vector);
}

} // verus!
