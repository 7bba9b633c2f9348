use lib::nes::timing::{cpu_slot, is_cpu_slot_tick, nmi_countdown, CpuSlotAction, DmaMode, DmaState};

#[test]
fn cpu_runs_every_third_ppu_tick() {
    assert!(is_cpu_slot_tick(0));
    assert!(!is_cpu_slot_tick(1));
    assert!(!is_cpu_slot_tick(2));
    assert!(is_cpu_slot_tick(3));
}

#[test]
fn ready_cpu_ticks() {
    let s = DmaState { mode: DmaMode::Idle, oam_transfer_cycles: 0 };
    let (next, action, rdy) = cpu_slot(s, true, 0x02);
    assert_eq!(action, CpuSlotAction::TickCpu);
    assert_eq!(next, s);
    assert!(rdy);
}

#[test]
fn dma_copies_page_then_releases_cpu() {
    let mut s = DmaState { mode: DmaMode::Idle, oam_transfer_cycles: 0 };
    let (next, action, mut rdy) = cpu_slot(s, false, 0x03);
    assert_eq!(action, CpuSlotAction::StartDma);
    assert!(!rdy);
    s = next;
    let mut copied = Vec::new();
    let mut slots = 0;
    loop {
        let (next, action, r) = cpu_slot(s, rdy, 0x03);
        s = next;
        rdy = r;
        slots += 1;
        match action {
            CpuSlotAction::CopyDmaByte { addr } => copied.push(addr),
            CpuSlotAction::WaitDma => {}
            CpuSlotAction::FinishDma => break,
            other => panic!("unexpected action {:?}", other),
        }
    }
    assert_eq!(slots, 513);
    assert!(rdy);
    assert_eq!(s.mode, DmaMode::Idle);
    assert_eq!(copied.len(), 256);
    assert_eq!(copied[0], 0x0300);
    assert_eq!(copied[255], 0x03FF);
}

#[test]
fn nmi_countdown_fires_at_zero() {
    assert_eq!(nmi_countdown(Some(2)), (Some(1), false));
    assert_eq!(nmi_countdown(Some(0)), (None, true));
    assert_eq!(nmi_countdown(None), (None, false));
}
