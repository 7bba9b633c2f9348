use vstd::prelude::*;

verus! {

/// What one APU clock of the frame counter signals: quarter frame, half frame, the counter
/// after the step, and whether the frame IRQ is raised.
pub struct FrameStep {
    pub quarter: bool,
    pub half: bool,
    pub counter: u32,
    pub irq: bool,
}

/// The frame sequencer, clocked on even CPU cycles.
/// ```text
///  mode 0:    mode 1:       function
///  ---------  -----------  -----------------------------
///   - - - f    - - - - -    IRQ (if bit 6 is clear)
///   - l - l    - l - - l    Length counter and sweep
///   e e e e    e e e - e    Envelope and linear counter
/// ```
#[verifier::opaque]
pub open spec fn frame_step(counter: u32, five_step: bool, irq_disable: bool) -> FrameStep {
    let c = (counter + 1) as u32;
    if c == 3729 || c == 11186 {
        FrameStep { quarter: true, half: false, counter: c, irq: false }
    } else if c == 7457 {
        FrameStep { quarter: true, half: true, counter: c, irq: false }
    } else if !five_step && c == 14915 {
        FrameStep { quarter: true, half: true, counter: 0, irq: !irq_disable }
    } else if five_step && c == 18640 {
        FrameStep { quarter: true, half: true, counter: 0, irq: false }
    } else {
        FrameStep { quarter: false, half: false, counter: c, irq: false }
    }
}

pub fn step_frame_counter(counter: u32, five_step: bool, irq_disable: bool) -> (s: FrameStep)
    requires
        counter < u32::MAX,
    ensures
        s == frame_step(counter, five_step, irq_disable),
{
    reveal(frame_step);
    let c = counter + 1;
    if c == 3729 || c == 11186 {
        FrameStep { quarter: true, half: false, counter: c, irq: false }
    } else if c == 7457 {
        FrameStep { quarter: true, half: true, counter: c, irq: false }
    } else if !five_step && c == 14915 {
        FrameStep { quarter: true, half: true, counter: 0, irq: !irq_disable }
    } else if five_step && c == 18640 {
        FrameStep { quarter: true, half: true, counter: 0, irq: false }
    } else {
        FrameStep { quarter: false, half: false, counter: c, irq: false }
    }
}

/// In four-step mode the sequence is 14915 steps long: the counter returns to 0 exactly
/// from 14914, with a half-frame clock and the frame IRQ unless it is inhibited; in
/// five-step mode it returns to 0 exactly from 18639. Every other step counts up by one.
pub proof fn lemma_frame_sequence_wraps(counter: u32, five_step: bool, irq_disable: bool)
    requires
        counter < 0xFFFF_FFFF,
    ensures
        !five_step ==> (frame_step(counter, five_step, irq_disable).counter == 0 <==> counter == 14914),
        five_step ==> (frame_step(counter, five_step, irq_disable).counter == 0 <==> counter == 18639),
        !five_step && counter == 14914 ==> frame_step(counter, five_step, irq_disable).half
            && frame_step(counter, five_step, irq_disable).irq == !irq_disable,
        frame_step(counter, five_step, irq_disable).counter != 0 ==> frame_step(counter, five_step, irq_disable).counter == counter + 1,
        five_step ==> !frame_step(counter, five_step, irq_disable).irq,
{
    reveal(frame_step);
}

/// Which steps of the sequence clock what. Four-step mode: quarter-frame clocks at steps
/// 3729, 7457, 11186 and 14915, half-frame clocks at 7457 and 14915 (two per frame), the
/// frame IRQ at 14915 unless inhibited. Five-step mode: quarter-frame clocks at 3729, 7457,
/// 11186 and 18640, half-frame clocks at 7457 and 18640, and no IRQ. Here a step is the
/// counter value after the clock.
pub proof fn lemma_frame_sequence_clocks(counter: u32, five_step: bool, irq_disable: bool)
    requires
        counter < 0xFFFF_FFFF,
    ensures
        ({
            let c = counter + 1;
            let f = frame_step(counter, five_step, irq_disable);
            &&& !five_step ==> (f.quarter <==> (c == 3729 || c == 7457 || c == 11186 || c == 14915))
            &&& !five_step ==> (f.half <==> (c == 7457 || c == 14915))
            &&& !five_step ==> (f.irq <==> (c == 14915 && !irq_disable))
            &&& five_step ==> (f.quarter <==> (c == 3729 || c == 7457 || c == 11186 || c == 18640))
            &&& five_step ==> (f.half <==> (c == 7457 || c == 18640))
            &&& five_step ==> !f.irq
        }),
{
    reveal(frame_step);
}

} // verus!
