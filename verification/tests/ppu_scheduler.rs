use lib::nes::ppu::scheduler::{bit, build_schedule, schedule_for, PpuOperation, RENDER_OPS};

#[test]
fn render_ops_mask_matches_operation_bits() {
    let ops = [
        PpuOperation::ShiftRegisters,
        PpuOperation::FetchNameTable,
        PpuOperation::FetchAttribute,
        PpuOperation::FetchTileLow,
        PpuOperation::FetchTileHigh,
        PpuOperation::RenderPixel,
        PpuOperation::IncCoarseX,
        PpuOperation::IncFineY,
        PpuOperation::CopyHorizV,
        PpuOperation::CopyVertV,
        PpuOperation::ClearSecondaryOam,
        PpuOperation::ResetSpriteEvaluation,
        PpuOperation::EvaluateSprites,
    ];
    let mut mask = 0u64;
    for op in ops {
        mask |= bit(op);
    }
    assert_eq!(mask, RENDER_OPS);
    assert_eq!(bit(PpuOperation::SetVBlank) & RENDER_OPS, 0);
}

#[test]
fn schedule_for_visible_fetch_dot() {
    let d = schedule_for(10, 1);
    assert_eq!(
        d.ops,
        vec![
            PpuOperation::ShiftRegisters,
            PpuOperation::FetchNameTable,
            PpuOperation::RenderPixel,
            PpuOperation::ClearSecondaryOam
        ]
    );
    assert_eq!(d.len, 4);
}

#[test]
fn schedule_for_end_of_line() {
    let d = schedule_for(0, 256);
    assert_eq!(
        d.ops,
        vec![
            PpuOperation::ShiftRegisters,
            PpuOperation::LoadBackgroundRegisters,
            PpuOperation::IncCoarseX,
            PpuOperation::RenderPixel,
            PpuOperation::IncFineY
        ]
    );
    assert_eq!(schedule_for(0, 257).ops, vec![PpuOperation::CopyHorizV, PpuOperation::FillSpriteRegister]);
}

#[test]
fn schedule_for_vblank_edges() {
    assert_eq!(schedule_for(241, 1).ops, vec![PpuOperation::SetVBlank]);
    let pre = schedule_for(261, 1).ops;
    assert_eq!(pre.last(), Some(&PpuOperation::ClearVBlank));
    assert!(schedule_for(250, 100).ops.is_empty());
    assert!(schedule_for(261, 290).ops.contains(&PpuOperation::CopyVertV));
}

#[test]
fn build_schedule_covers_frame() {
    let table = build_schedule();
    assert_eq!(table.len(), 262);
    assert_eq!(table[0].len(), 341);
    assert_eq!(table[241][1].ops, vec![PpuOperation::SetVBlank]);
}
