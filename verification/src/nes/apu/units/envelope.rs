use vstd::prelude::*;

verus! {

#[derive(Clone, Copy, Debug, PartialEq, Eq, Structural)]
pub enum VolumeMode {
    Envelope,
    Constant,
}

/// A call that changes an envelope: `start` or a quarter-frame `clock`.
#[derive(Clone, Copy, Debug, PartialEq, Eq, Structural)]
pub enum EnvelopeEvent {
    Start,
    Clock,
}

/// The volume envelope: a decay level from 15 to 0 stepped by a divider, or a constant volume.
#[derive(Clone, Copy)]
pub struct Envelope {
    pub start: bool,
    pub divider: u8,
    pub decay: u8,
    pub constant_volume: u8,
    pub loop_flag: bool,
    pub volume_mode: VolumeMode,
    pub period: u8,
}

impl Envelope {
    /// One quarter-frame clock: a pending start restarts the decay at 15; otherwise the
    /// divider counts down, and at zero reloads and steps the decay (wrapping to 15 when looping).
    pub open spec fn clock_spec(self) -> Envelope {
        if self.start {
            Envelope { start: false, decay: 15, divider: self.period, ..self }
        } else if self.divider == 0 {
            Envelope {
                divider: self.period,
                decay: if self.decay > 0 {
                    (self.decay - 1) as u8
                } else if self.loop_flag {
                    15
                } else {
                    self.decay
                },
                ..self
            }
        } else {
            Envelope { divider: (self.divider - 1) as u8, ..self }
        }
    }

    pub open spec fn new_spec() -> Envelope {
        Envelope {
            start: false,
            divider: 0,
            decay: 0,
            constant_volume: 0,
            loop_flag: false,
            volume_mode: VolumeMode::Envelope,
            period: 0,
        }
    }

    /// The envelope after `value` is written to its register.
    pub open spec fn set_spec(self, value: u8) -> Envelope {
        Envelope {
            period: value % 16,
            constant_volume: value % 16,
            loop_flag: (value / 32) % 2 == 1,
            volume_mode: if (value / 16) % 2 == 0 { VolumeMode::Envelope } else { VolumeMode::Constant },
            ..self
        }
    }

    pub open spec fn output_spec(self) -> u8 {
        if self.volume_mode == VolumeMode::Constant {
            self.constant_volume
        } else {
            self.decay
        }
    }

    /// The envelope after `start`.
    pub open spec fn start_spec(self) -> Envelope {
        Envelope { start: false, decay: 15, divider: self.period, ..self }
    }

    /// The envelope after the calls `events`, in order.
    pub open spec fn after_events(self, events: Seq<EnvelopeEvent>) -> Envelope
        decreases events.len(),
    {
        if events.len() == 0 {
            self
        } else {
            let next = match events[0] {
                EnvelopeEvent::Start => self.start_spec(),
                EnvelopeEvent::Clock => self.clock_spec(),
            };
            next.after_events(events.drop_first())
        }
    }

    /// `n` quarter-frame clocks.
    pub open spec fn clocked_n(self, n: nat) -> Envelope
        decreases n,
    {
        if n == 0 {
            self
        } else {
            self.clock_spec().clocked_n((n - 1) as nat)
        }
    }

    pub fn new() -> (e: Envelope)
        ensures
            e == Envelope::new_spec(),
    {
        Envelope {
            start: false,
            divider: 0,
            decay: 0,
            constant_volume: 0,
            loop_flag: false,
            volume_mode: VolumeMode::Envelope,
            period: 0,
        }
    }

    /// Restarts the decay at 15 and reloads the divider.
    pub fn start(&mut self)
        ensures
            *final(self) == old(self).start_spec(),
    {
        self.start = false;
        self.decay = 15;
        self.divider = self.period;
    }

    /// Loads `--LC VVVV`: loop (L), constant volume (C) and the period / volume (V).
    pub fn set(&mut self, value: u8)
        ensures
            *final(self) == old(self).set_spec(value),
    {
        self.period = value % 16;
        self.constant_volume = self.period;
        self.loop_flag = (value / 32) % 2 == 1;
        self.volume_mode = if (value / 16) % 2 == 0 {
            VolumeMode::Envelope
        } else {
            VolumeMode::Constant
        };
    }

    /// Called by the quarter-frame clock.
    pub fn clock(&mut self)
        ensures
            *final(self) == old(self).clock_spec(),
    {
        if self.start {
            self.start = false;
            self.decay = 15;
            self.divider = self.period;
        } else if self.divider == 0 {
            self.divider = self.period;
            if self.decay > 0 {
                self.decay -= 1;
            } else if self.loop_flag {
                self.decay = 15;
            }
        } else {
            self.divider -= 1;
        }
    }

    pub fn output(&self) -> (v: u8)
        ensures
            v == self.output_spec(),
    {
        if self.volume_mode == VolumeMode::Constant {
            self.constant_volume
        } else {
            self.decay
        }
    }

    pub fn get_volume_mode(&self) -> (m: VolumeMode)
        ensures
            m == self.volume_mode,
    {
        self.volume_mode
    }

    pub fn get_divider_period(&self) -> (p: u8)
        ensures
            p == self.period,
    {
        self.period
    }

    pub fn get_loop_flag(&self) -> (l: bool)
        ensures
            l == self.loop_flag,
    {
        self.loop_flag
    }

    pub fn set_start_flag(&mut self, start: bool)
        ensures
            *final(self) == (Envelope { start, ..*old(self) }),
    {
        self.start = start;
    }

    pub fn get_start_flag(&self) -> (s: bool)
        ensures
            s == self.start,
    {
        self.start
    }

    /// Sets the divider period (the volume of the constant mode is unchanged).
    pub fn set_volume(&mut self, volume: u8)
        ensures
            *final(self) == (Envelope { period: volume, ..*old(self) }),
    {
        self.period = volume;
    }
}

/// After a start, each decay step takes `period + 1` clocks: the divider counts the
/// period down to zero before the level drops.
pub proof fn lemma_decay_step_takes_period_plus_one(e: Envelope)
    requires
        !e.start,
        e.divider == e.period,
        e.decay > 0,
    ensures
        e.clocked_n(e.period as nat).decay == e.decay,
        e.clocked_n(e.period as nat).divider == 0,
        e.clocked_n(e.period as nat + 1).decay == e.decay - 1,
    decreases e.period,
{
    lemma_countdown(e, e.period as nat);
    let f = e.clocked_n(e.period as nat);
    assert(e.clocked_n(e.period as nat + 1) == f.clock_spec()) by {
        lemma_clocked_n_split(e, e.period as nat);
    }
}

proof fn lemma_countdown(e: Envelope, k: nat)
    requires
        !e.start,
        k <= e.divider,
    ensures
        e.clocked_n(k) == (Envelope { divider: (e.divider - k) as u8, ..e }),
    decreases k,
{
    if k > 0 {
        let f = e.clock_spec();
        assert(f == (Envelope { divider: (e.divider - 1) as u8, ..e }));
        lemma_countdown(f, (k - 1) as nat);
    }
}

proof fn lemma_clocked_n_split(e: Envelope, k: nat)
    ensures
        e.clocked_n(k + 1) == e.clocked_n(k).clock_spec(),
    decreases k,
{
    let f = e.clock_spec();
    assert(e.clocked_n(k + 1) == f.clocked_n(k));
    if k > 0 {
        lemma_clocked_n_split(f, (k - 1) as nat);
        assert(e.clocked_n(k) == f.clocked_n((k - 1) as nat));
    } else {
        assert(f.clocked_n(0) == f);
        assert(e.clocked_n(0) == e);
    }
}

/// In constant-volume mode (bit 4 of the register set), the output is the register's low
/// four bits, whatever `start` and `clock` calls follow, in any number and order.
pub proof fn lemma_constant_volume_holds(e: Envelope, value: u8, events: Seq<EnvelopeEvent>)
    requires
        (value / 16) % 2 == 1,
    ensures
        e.set_spec(value).after_events(events).output_spec() == value % 16,
    decreases events.len(),
{
    lemma_constant_volume_kept(e.set_spec(value), value % 16, events);
}

proof fn lemma_constant_volume_kept(e: Envelope, volume: u8, events: Seq<EnvelopeEvent>)
    requires
        e.volume_mode == VolumeMode::Constant,
        e.constant_volume == volume,
    ensures
        e.after_events(events).volume_mode == VolumeMode::Constant,
        e.after_events(events).constant_volume == volume,
        e.after_events(events).output_spec() == volume,
    decreases events.len(),
{
    if events.len() > 0 {
        let next = match events[0] {
            EnvelopeEvent::Start => e.start_spec(),
            EnvelopeEvent::Clock => e.clock_spec(),
        };
        lemma_constant_volume_kept(next, volume, events.drop_first());
    }
}

} // verus!
