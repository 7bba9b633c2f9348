use vstd::prelude::*;

verus! {

/// The output unit of the delta-modulation channel.
#[derive(Clone, Copy)]
pub struct DmcOutput {
    pub register: u8,
    pub bits_remaining: u8,
    pub current_bit: u8,
    pub silence_flag: bool,
}

impl DmcOutput {
    pub fn new() -> (o: DmcOutput)
        ensures
            o.register == 0,
            o.bits_remaining == 0,
            o.current_bit == 0,
            !o.silence_flag,
    {
        DmcOutput { register: 0, bits_remaining: 0, current_bit: 0, silence_flag: false }
    }

    pub fn set_register(&mut self, value: u8)
        ensures
            *final(self) == (DmcOutput { register: value, ..*old(self) }),
    {
        self.register = value;
    }

    /// The unit does not shift bits out yet: clocking leaves it unchanged.
    pub fn clock(&mut self)
        ensures
            *final(self) == *old(self),
    {
    }

    /// The unit does not produce a level yet: its output is silence.
    pub fn output() -> (v: u8)
        ensures
            v == 0,
    {
        0
    }
}

} // verus!
