use vstd::prelude::*;
use crate::memory::filled;

verus! {

/// The width and height of a frame, in pixels.
pub const FRAME_WIDTH: usize = 256;
pub const FRAME_HEIGHT: usize = 240;

/// A frame of palette indices handed from the emulator to the display, with a flag that
/// says whether it changed since it was last shown.
pub struct SharedFrame {
    pub pixels: Vec<u8>,
    pub dirty: bool,
}

impl SharedFrame {
    pub fn new() -> (f: SharedFrame)
        ensures
            f.pixels@ == Seq::new((FRAME_WIDTH * FRAME_HEIGHT) as nat, |i: int| 0u8),
            !f.dirty,
    {
        SharedFrame { pixels: filled(FRAME_WIDTH * FRAME_HEIGHT, 0u8), dirty: false }
    }
}

} // verus!
