use vstd::prelude::*;

verus! {

pub const DOTS: usize = 341;
pub const SCAN_LINES: usize = 262;

/// The work the PPU does on a dot.
#[derive(Clone, Copy, Debug, PartialEq, Eq, Structural)]
pub enum PpuOperation {
    FetchNameTable,
    FetchAttribute,
    FetchTileLow,
    FetchTileHigh,
    LoadBackgroundRegisters,
    IncCoarseX,
    IncFineY,
    CopyHorizV,
    CopyVertV,
    ShiftRegisters,
    ClearSecondaryOam,
    FillSpriteRegister,
    EvaluateSprites,
    ResetSpriteEvaluation,
    RenderPixel,
    SetVBlank,
    ClearVBlank,
    Idle,
}

/// The operation's position, which is its bit in an operation mask.
pub open spec fn op_index(op: PpuOperation) -> u8 {
    match op {
        PpuOperation::FetchNameTable => 0,
        PpuOperation::FetchAttribute => 1,
        PpuOperation::FetchTileLow => 2,
        PpuOperation::FetchTileHigh => 3,
        PpuOperation::LoadBackgroundRegisters => 4,
        PpuOperation::IncCoarseX => 5,
        PpuOperation::IncFineY => 6,
        PpuOperation::CopyHorizV => 7,
        PpuOperation::CopyVertV => 8,
        PpuOperation::ShiftRegisters => 9,
        PpuOperation::ClearSecondaryOam => 10,
        PpuOperation::FillSpriteRegister => 11,
        PpuOperation::EvaluateSprites => 12,
        PpuOperation::ResetSpriteEvaluation => 13,
        PpuOperation::RenderPixel => 14,
        PpuOperation::SetVBlank => 15,
        PpuOperation::ClearVBlank => 16,
        PpuOperation::Idle => 17,
    }
}

/// The operations that need rendering enabled: the background and sprite pipelines and
/// pixel output (every operation but the register loads, the vertical-blank flags and
/// `Idle`).
pub const RENDER_OPS: u64 = 0x77EF;

/// The mask bit of `op`.
pub fn bit(op: PpuOperation) -> (b: u64)
    ensures
        b == 1u64 << op_index(op),
{
    let i: u64 = match op {
        PpuOperation::FetchNameTable => 0,
        PpuOperation::FetchAttribute => 1,
        PpuOperation::FetchTileLow => 2,
        PpuOperation::FetchTileHigh => 3,
        PpuOperation::LoadBackgroundRegisters => 4,
        PpuOperation::IncCoarseX => 5,
        PpuOperation::IncFineY => 6,
        PpuOperation::CopyHorizV => 7,
        PpuOperation::CopyVertV => 8,
        PpuOperation::ShiftRegisters => 9,
        PpuOperation::ClearSecondaryOam => 10,
        PpuOperation::FillSpriteRegister => 11,
        PpuOperation::EvaluateSprites => 12,
        PpuOperation::ResetSpriteEvaluation => 13,
        PpuOperation::RenderPixel => 14,
        PpuOperation::SetVBlank => 15,
        PpuOperation::ClearVBlank => 16,
        PpuOperation::Idle => 17,
    };
    1u64 << i
}

/// The operations of one dot, in the order they run.
pub struct DotOperations {
    pub len: u8,
    pub ops: Vec<PpuOperation>,
}

impl DotOperations {
    pub open spec fn view(&self) -> Seq<PpuOperation> {
        self.ops@
    }

    pub fn new() -> (d: DotOperations)
        ensures
            d.ops@ == Seq::<PpuOperation>::empty(),
            d.len == 0,
    {
        DotOperations { len: 0, ops: Vec::new() }
    }

    /// Appends an operation; a dot holds at most six.
    pub fn push(self, op: PpuOperation) -> (d: DotOperations)
        requires
            self.len < 6,
            self.len == self.ops@.len(),
        ensures
            d.ops@ == self.ops@.push(op),
            d.len == self.len + 1,
    {
        let mut ops = self.ops;
        ops.push(op);
        DotOperations { len: self.len + 1, ops }
    }
}

/// `op` when `cond` holds, nothing otherwise.
pub open spec fn when(cond: bool, op: PpuOperation) -> Seq<PpuOperation> {
    if cond { seq![op] } else { Seq::empty() }
}

/// The background fetch pipeline on a fetch dot: the shifters move on every one, and the
/// eight-dot cycle fetches the nametable byte, the attribute, the two pattern planes, then
/// loads the shifters and steps coarse X.
pub open spec fn fetch_ops(dot: usize) -> Seq<PpuOperation> {
    seq![PpuOperation::ShiftRegisters] + (if dot % 8 == 1 {
        seq![PpuOperation::FetchNameTable]
    } else if dot % 8 == 3 {
        seq![PpuOperation::FetchAttribute]
    } else if dot % 8 == 5 {
        seq![PpuOperation::FetchTileLow]
    } else if dot % 8 == 7 {
        seq![PpuOperation::FetchTileHigh]
    } else if dot % 8 == 0 {
        seq![PpuOperation::LoadBackgroundRegisters, PpuOperation::IncCoarseX]
    } else {
        Seq::empty()
    })
}

/// The operations of dot `dot` of scanline `scanline` (lines 0-239 visible, 261
/// pre-render).
pub open spec fn schedule(scanline: usize, dot: usize) -> Seq<PpuOperation> {
    let visible = scanline < 240;
    let prerender = scanline == 261;
    let render_cycle = 1 <= dot <= 256;
    let fetch_cycle = render_cycle || (321 <= dot <= 336);
    (if (visible || prerender) && fetch_cycle { fetch_ops(dot) } else { Seq::empty() })
        + when(visible && render_cycle, PpuOperation::RenderPixel)
        + when(visible && dot == 256, PpuOperation::IncFineY)
        + when((visible || prerender) && dot == 257, PpuOperation::CopyHorizV)
        + when(prerender && 280 <= dot <= 304, PpuOperation::CopyVertV)
        + when(visible && 1 <= dot <= 64, PpuOperation::ClearSecondaryOam)
        + when(visible && dot == 65, PpuOperation::ResetSpriteEvaluation)
        + when(visible && 65 <= dot <= 256 && dot % 2 == 1, PpuOperation::EvaluateSprites)
        + when((visible || prerender) && 257 <= dot <= 320 && (dot - 257) % 8 == 0,
            PpuOperation::FillSpriteRegister)
        + when(dot == 1 && scanline == 241, PpuOperation::SetVBlank)
        + when(dot == 1 && prerender, PpuOperation::ClearVBlank)
}

/// Returns the set of operations for a scanline and dot.
#[verifier::rlimit(60)]
pub fn schedule_for(scanline: usize, dot: usize) -> (d: DotOperations)
    ensures
        d.ops@ == schedule(scanline, dot),
        d.len == d.ops@.len(),
        d.len <= 6,
{
    let mut ops = DotOperations::new();
    let visible = scanline < 240;
    let prerender = scanline == 261;
    let render_cycle = dot >= 1 && dot <= 256;
    let fetch_cycle = render_cycle || (dot >= 321 && dot <= 336);

    // Background fetch pipeline.
    if (visible || prerender) && fetch_cycle {
        ops = ops.push(PpuOperation::ShiftRegisters);
        let phase = dot % 8;
        if phase == 1 {
            ops = ops.push(PpuOperation::FetchNameTable);
        } else if phase == 3 {
            ops = ops.push(PpuOperation::FetchAttribute);
        } else if phase == 5 {
            ops = ops.push(PpuOperation::FetchTileLow);
        } else if phase == 7 {
            ops = ops.push(PpuOperation::FetchTileHigh);
        } else if phase == 0 {
            ops = ops.push(PpuOperation::LoadBackgroundRegisters);
            ops = ops.push(PpuOperation::IncCoarseX);
        }
    }
    assert(ops.ops@ == (if (visible || prerender) && fetch_cycle { fetch_ops(dot) } else { Seq::empty() }));
    let ghost base = ops.ops@;
    // Pixel output, fine Y at the end of the line, copies of the scroll bits.
    if visible && render_cycle {
        ops = ops.push(PpuOperation::RenderPixel);
    }
    if visible && dot == 256 {
        ops = ops.push(PpuOperation::IncFineY);
    }
    if (visible || prerender) && dot == 257 {
        ops = ops.push(PpuOperation::CopyHorizV);
    }
    if prerender && (dot >= 280 && dot <= 304) {
        ops = ops.push(PpuOperation::CopyVertV);
    }
    let ghost mid = ops.ops@;
    assert(mid == base + when(visible && render_cycle, PpuOperation::RenderPixel)
        + when(visible && dot == 256, PpuOperation::IncFineY)
        + when((visible || prerender) && dot == 257, PpuOperation::CopyHorizV)
        + when(prerender && 280 <= dot <= 304, PpuOperation::CopyVertV));
    // Sprite evaluation and fetches.
    if visible && dot >= 1 && dot <= 64 {
        ops = ops.push(PpuOperation::ClearSecondaryOam);
    }
    if visible && dot == 65 {
        ops = ops.push(PpuOperation::ResetSpriteEvaluation);
    }
    if visible && (dot >= 65 && dot <= 256) && dot % 2 == 1 {
        ops = ops.push(PpuOperation::EvaluateSprites);
    }
    if (visible || prerender) && (dot >= 257 && dot <= 320) && (dot - 257) % 8 == 0 {
        ops = ops.push(PpuOperation::FillSpriteRegister);
    }
    let ghost late = ops.ops@;
    assert(late == mid + when(visible && 1 <= dot <= 64, PpuOperation::ClearSecondaryOam)
        + when(visible && dot == 65, PpuOperation::ResetSpriteEvaluation)
        + when(visible && 65 <= dot <= 256 && dot % 2 == 1, PpuOperation::EvaluateSprites)
        + when((visible || prerender) && 257 <= dot <= 320 && (dot - 257) % 8 == 0,
            PpuOperation::FillSpriteRegister));
    // Vertical-blank flag.
    if dot == 1 {
        if scanline == 241 {
            ops = ops.push(PpuOperation::SetVBlank);
        }
        if prerender {
            ops = ops.push(PpuOperation::ClearVBlank);
        }
    }
    assert(ops.ops@ == late + when(dot == 1 && scanline == 241, PpuOperation::SetVBlank)
        + when(dot == 1 && prerender, PpuOperation::ClearVBlank));
    ops
}

/// The operations of every dot of a frame, indexed by scanline and then dot.
pub fn build_schedule() -> (table: Vec<Vec<DotOperations>>)
    ensures
        table@.len() == SCAN_LINES,
        forall|s: int| 0 <= s < SCAN_LINES ==> #[trigger] table@[s]@.len() == DOTS,
        forall|s: int, d: int| 0 <= s < SCAN_LINES && 0 <= d < DOTS
            ==> #[trigger] table@[s]@[d].ops@ == schedule(s as usize, d as usize),
{
    let mut table: Vec<Vec<DotOperations>> = Vec::new();
    let mut scanline: usize = 0;
    while scanline < SCAN_LINES
        invariant
            scanline <= SCAN_LINES,
            table@.len() == scanline,
            forall|s: int| 0 <= s < scanline ==> #[trigger] table@[s]@.len() == DOTS,
            forall|s: int, d: int| 0 <= s < scanline && 0 <= d < DOTS
                ==> #[trigger] table@[s]@[d].ops@ == schedule(s as usize, d as usize),
        decreases SCAN_LINES - scanline,
    {
        let mut row: Vec<DotOperations> = Vec::new();
        let mut dot: usize = 0;
        while dot < DOTS
            invariant
                dot <= DOTS,
                row@.len() == dot,
                forall|d: int| 0 <= d < dot ==> #[trigger] row@[d].ops@ == schedule(scanline, d as usize),
            decreases DOTS - dot,
        {
            row.push(schedule_for(scanline, dot));
            dot = dot + 1;
        }
        table.push(row);
        scanline = scanline + 1;
    }
    table
}

/// The vertical-blank flag is set only at dot 1 of line 241 and cleared only at dot 1 of
/// the pre-render line.
pub proof fn lemma_vblank_ops_only_at_dot_one(scanline: usize, dot: usize)
    ensures
        schedule(scanline, dot).contains(PpuOperation::SetVBlank) <==> (dot == 1 && scanline == 241),
        schedule(scanline, dot).contains(PpuOperation::ClearVBlank) <==> (dot == 1 && scanline == 261),
{
    let s = schedule(scanline, dot);
    if dot == 1 && scanline == 241 {
        assert(s[s.len() - 1] == PpuOperation::SetVBlank);
    }
    if dot == 1 && scanline == 261 {
        assert(s[s.len() - 1] == PpuOperation::ClearVBlank);
    }
    if s.contains(PpuOperation::SetVBlank) {
        let i = choose|i: int| 0 <= i < s.len() && s[i] == PpuOperation::SetVBlank;
        assert(dot == 1 && scanline == 241);
    }
    if s.contains(PpuOperation::ClearVBlank) {
        let i = choose|i: int| 0 <= i < s.len() && s[i] == PpuOperation::ClearVBlank;
        assert(dot == 1 && scanline == 261);
    }
}

} // verus!
