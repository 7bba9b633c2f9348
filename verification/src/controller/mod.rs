use vstd::prelude::*;

pub mod joypad;

verus! {

/// A device on a controller port: the CPU writes the strobe and reads one bit at a time.
pub trait NesController {
    spec fn strobe_spec(&self) -> bool;

    /// Reads the next bit of the controller's serial output.
    fn read(&mut self) -> (bit: u8)
        ensures
            bit <= 1;

    /// Writes the strobe latch (bit 0 of `data`).
    fn write(&mut self, data: u8)
        ensures
            final(self).strobe_spec() == (data % 2 == 1);
}

} // verus!
