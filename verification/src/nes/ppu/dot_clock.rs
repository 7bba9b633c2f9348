use vstd::prelude::*;

verus! {

/// Dots on a line and lines in a frame.
pub const DOTS_PER_LINE: usize = 341;
pub const LINES_PER_FRAME: usize = 262;

/// The PPU's timing state: its position, the status byte, and the flags that govern
/// vertical blank, NMI and the odd-frame skip.
#[derive(Clone, Copy, Debug, PartialEq, Eq, Structural)]
pub struct DotClock {
    pub scanline: usize,
    pub cycles: usize,
    pub status: u8,
    pub frame_is_odd: bool,
    pub prerender_rendering_enabled: bool,
    pub nmi_fired_this_vblank: bool,
    pub suppress_vblank: bool,
    pub instant_nmi_pending: bool,
}

/// One dot of PPU timing, given the control and mask bytes and where $2002 was last read.
/// Returns the new state, whether an NMI is raised, and whether a frame was completed.
///
/// - At dot 1 of the pre-render line 261, vertical blank, sprite zero hit and sprite
///   overflow clear, the NMI latch resets, and whether rendering is on is recorded.
/// - At dot 1 of line 241 vertical blank starts (unless a $2002 read just before
///   suppressed it), and an NMI is raised when the control register asks for one, none
///   was raised this vertical blank, and $2002 was not read at dots 1-3 of that line.
/// - An NMI held back by a $2000 write during vertical blank is raised once NMIs are on.
/// - On odd frames with rendering on, the pre-render line ends one dot early; otherwise
///   each line has 341 dots, and the frame completes on the wrap from line 261 to line 0.
pub open spec fn dot_step(c: DotClock, ctrl: u8, mask: u8, read_scanline: usize, read_dot: usize) -> (DotClock, bool, bool) {
    let c1 = if c.scanline == 261 && c.cycles == 1 {
        DotClock {
            prerender_rendering_enabled: (mask / 8) % 4 != 0,
            nmi_fired_this_vblank: false,
            status: c.status % 32,
            ..c
        }
    } else {
        c
    };
    let at_vblank = c.scanline == 241 && c.cycles == 1;
    let suppress_nmi = read_scanline == 241 && 1 <= read_dot <= 3;
    let fire = at_vblank && ctrl >= 128 && !suppress_nmi && !c1.nmi_fired_this_vblank;
    let c2 = if at_vblank {
        DotClock {
            status: if c1.suppress_vblank { c1.status } else { (c1.status % 128 + 128) as u8 },
            nmi_fired_this_vblank: c1.nmi_fired_this_vblank || fire,
            ..c1
        }
    } else {
        c1
    };
    let instant = c2.instant_nmi_pending && ctrl >= 128;
    let c3 = if instant { DotClock { instant_nmi_pending: false, ..c2 } } else { c2 };
    let nmi = fire || instant;
    if c.scanline == 261 && c.cycles == 339 && c3.frame_is_odd && c3.prerender_rendering_enabled {
        (DotClock { cycles: 0, scanline: 0, suppress_vblank: false, frame_is_odd: !c3.frame_is_odd, ..c3 }, nmi, true)
    } else if c.cycles >= 340 {
        if c.scanline >= 261 {
            (DotClock { cycles: 0, scanline: 0, suppress_vblank: false, frame_is_odd: !c3.frame_is_odd, ..c3 }, nmi, true)
        } else {
            (DotClock { cycles: 0, scanline: (c.scanline + 1) as usize, ..c3 }, nmi, false)
        }
    } else {
        (DotClock { cycles: (c.cycles + 1) as usize, ..c3 }, nmi, false)
    }
}

/// `n` dots of timing from `c`: the state reached, and whether any of them raised an NMI.
pub open spec fn run_dots(c: DotClock, ctrl: u8, mask: u8, read_scanline: usize, read_dot: usize, n: nat) -> (DotClock, bool)
    decreases n,
{
    if n == 0 {
        (c, false)
    } else {
        let before = run_dots(c, ctrl, mask, read_scanline, read_dot, (n - 1) as nat);
        let s = dot_step(before.0, ctrl, mask, read_scanline, read_dot);
        (s.0, before.1 || s.1)
    }
}

/// Computes one dot of timing.
pub fn step_dot(c: DotClock, ctrl: u8, mask: u8, read_scanline: usize, read_dot: usize) -> (r: (DotClock, bool, bool))
    requires
        c.scanline <= 261,
        c.cycles <= 340,
    ensures
        r == dot_step(c, ctrl, mask, read_scanline, read_dot),
        r.0.scanline <= 261,
        r.0.cycles <= 340,
{
    let c1 = if c.scanline == 261 && c.cycles == 1 {
        DotClock {
            prerender_rendering_enabled: (mask / 8) % 4 != 0,
            nmi_fired_this_vblank: false,
            status: c.status % 32,
            ..c
        }
    } else {
        c
    };
    let at_vblank = c.scanline == 241 && c.cycles == 1;
    let suppress_nmi = read_scanline == 241 && 1 <= read_dot && read_dot <= 3;
    let fire = at_vblank && ctrl >= 128 && !suppress_nmi && !c1.nmi_fired_this_vblank;
    let c2 = if at_vblank {
        DotClock {
            status: if c1.suppress_vblank { c1.status } else { c1.status % 128 + 128 },
            nmi_fired_this_vblank: c1.nmi_fired_this_vblank || fire,
            ..c1
        }
    } else {
        c1
    };
    let instant = c2.instant_nmi_pending && ctrl >= 128;
    let c3 = if instant { DotClock { instant_nmi_pending: false, ..c2 } } else { c2 };
    let nmi = fire || instant;
    if c.scanline == 261 && c.cycles == 339 && c3.frame_is_odd && c3.prerender_rendering_enabled {
        (DotClock { cycles: 0, scanline: 0, suppress_vblank: false, frame_is_odd: !c3.frame_is_odd, ..c3 }, nmi, true)
    } else if c.cycles >= 340 {
        if c.scanline >= 261 {
            (DotClock { cycles: 0, scanline: 0, suppress_vblank: false, frame_is_odd: !c3.frame_is_odd, ..c3 }, nmi, true)
        } else {
            (DotClock { cycles: 0, scanline: c.scanline + 1, ..c3 }, nmi, false)
        }
    } else {
        (DotClock { cycles: c.cycles + 1, ..c3 }, nmi, false)
    }
}

/// Away from the odd-frame skip, a dot advances the position by one, and a frame
/// completes exactly on the wrap from the last dot of line 261 to line 0.
pub proof fn lemma_dot_advances(c: DotClock, ctrl: u8, mask: u8, read_scanline: usize, read_dot: usize)
    requires
        c.scanline <= 261,
        c.cycles <= 340,
        !(c.scanline == 261 && c.cycles == 339),
    ensures
        ({
            let s = dot_step(c, ctrl, mask, read_scanline, read_dot);
            if c.cycles < 340 {
                s.0.cycles == c.cycles + 1 && s.0.scanline == c.scanline && !s.2
            } else {
                s.0.cycles == 0 && s.0.scanline == (c.scanline + 1) % 262 && s.2 == (c.scanline == 261)
            }
        }),
{
}

} // verus!
