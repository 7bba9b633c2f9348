use vstd::prelude::*;

verus! {

/// The output unit of the delta-modulation channel: a shift register and a 7-bit level.
#[derive(Clone, Copy)]
pub struct DmcOutput {
    pub register: u8,
    pub bits_remaining: u8,
    pub current_bit: u8,
    pub silence_flag: bool,
    pub level: u8,
}

impl DmcOutput {
    pub fn new() -> (o: DmcOutput)
        ensures
            o == (DmcOutput { register: 0, bits_remaining: 0, current_bit: 0, silence_flag: false, level: 0 }),
    {
        DmcOutput { register: 0, bits_remaining: 0, current_bit: 0, silence_flag: false, level: 0 }
    }

    /// Loads a sample byte; all eight bits are yet to be shifted out.
    pub fn set_register(&mut self, value: u8)
        ensures
            *final(self) == (DmcOutput { register: value, current_bit: 8, ..*old(self) }),
    {
        self.current_bit = 8;
        self.register = value;
    }

    /// Sets the output level directly ($4011).
    pub fn direct_load(&mut self, value: u8)
        ensures
            *final(self) == (DmcOutput { level: value, ..*old(self) }),
    {
        self.level = value;
    }

    /// The unit does not shift bits out yet: clocking leaves it unchanged.
    pub fn clock(&mut self)
        ensures
            *final(self) == *old(self),
    {
    }

    pub fn output(&self) -> (v: u8)
        ensures
            v == self.level,
    {
        self.level
    }
}

} // verus!
