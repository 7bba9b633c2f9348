use vstd::prelude::*;

verus! {

/// PPU ticks per CPU cycle.
pub const PPU_TICKS_PER_CPU_CYCLE: usize = 3;
/// CPU cycles a sprite DMA takes: a read and a write for each of 256 bytes.
pub const OAM_DMA_DONE_CYCLES: usize = 512;

/// Whether sprite DMA holds the bus.
#[derive(Clone, Copy, Debug, PartialEq, Eq, Structural)]
pub enum DmaMode {
    Oam,
    Idle,
}

/// What the console does in a CPU slot.
#[derive(Clone, Copy, Debug, PartialEq, Eq, Structural)]
pub enum CpuSlotAction {
    /// The processor runs a tick.
    TickCpu,
    /// The processor has paused for DMA: the transfer starts.
    StartDma,
    /// DMA reads the byte at `addr` and writes it to sprite memory.
    CopyDmaByte { addr: u16 },
    /// DMA spends a cycle between two copies.
    WaitDma,
    /// DMA is over and the processor resumes.
    FinishDma,
}

/// The DMA state machine's state.
#[derive(Clone, Copy, Debug, PartialEq, Eq, Structural)]
pub struct DmaState {
    pub mode: DmaMode,
    pub oam_transfer_cycles: usize,
}

/// Whether the PPU tick numbered `ppu_ticks` is also a CPU cycle.
pub open spec fn is_cpu_slot(ppu_ticks: usize) -> bool {
    ppu_ticks % 3 == 0
}

/// The next state, the action and the processor's ready line after one CPU slot, given
/// whether the processor is ready and the page that DMA copies.
pub open spec fn cpu_slot_spec(state: DmaState, cpu_rdy: bool, oam_dma_page: u8) -> (DmaState, CpuSlotAction, bool) {
    match state.mode {
        DmaMode::Idle => if !cpu_rdy {
            (DmaState { mode: DmaMode::Oam, oam_transfer_cycles: 0 }, CpuSlotAction::StartDma, false)
        } else {
            (state, CpuSlotAction::TickCpu, true)
        },
        DmaMode::Oam => if state.oam_transfer_cycles < OAM_DMA_DONE_CYCLES {
            let next = DmaState { oam_transfer_cycles: (state.oam_transfer_cycles + 1) as usize, ..state };
            if state.oam_transfer_cycles % 2 == 0 {
                let addr = (oam_dma_page as int * 256 + state.oam_transfer_cycles / 2) as u16;
                (next, CpuSlotAction::CopyDmaByte { addr }, cpu_rdy)
            } else {
                (next, CpuSlotAction::WaitDma, cpu_rdy)
            }
        } else {
            (DmaState { mode: DmaMode::Idle, ..state }, CpuSlotAction::FinishDma, true)
        },
    }
}

/// Whether the PPU tick numbered `ppu_ticks` is also a CPU cycle (one in three).
pub fn is_cpu_slot_tick(ppu_ticks: usize) -> (r: bool)
    ensures
        r == is_cpu_slot(ppu_ticks),
{
    ppu_ticks % PPU_TICKS_PER_CPU_CYCLE == 0
}

/// Decides one CPU slot: a paused processor starts sprite DMA; DMA copies a byte on every
/// other cycle for 512 cycles and then hands the bus back; otherwise the processor runs.
pub fn cpu_slot(state: DmaState, cpu_rdy: bool, oam_dma_page: u8) -> (r: (DmaState, CpuSlotAction, bool))
    requires
        state.mode == DmaMode::Oam ==> state.oam_transfer_cycles <= OAM_DMA_DONE_CYCLES,
    ensures
        r == cpu_slot_spec(state, cpu_rdy, oam_dma_page),
        r.0.mode == DmaMode::Oam ==> r.0.oam_transfer_cycles <= OAM_DMA_DONE_CYCLES,
{
    match state.mode {
        DmaMode::Idle => {
            if !cpu_rdy {
                (DmaState { mode: DmaMode::Oam, oam_transfer_cycles: 0 }, CpuSlotAction::StartDma, false)
            } else {
                (state, CpuSlotAction::TickCpu, true)
            }
        },
        DmaMode::Oam => {
            if state.oam_transfer_cycles < OAM_DMA_DONE_CYCLES {
                let next = DmaState { oam_transfer_cycles: state.oam_transfer_cycles + 1, ..state };
                if state.oam_transfer_cycles % 2 == 0 {
                    let addr = oam_dma_page as u16 * 256 + (state.oam_transfer_cycles / 2) as u16;
                    (next, CpuSlotAction::CopyDmaByte { addr }, cpu_rdy)
                } else {
                    (next, CpuSlotAction::WaitDma, cpu_rdy)
                }
            } else {
                (DmaState { mode: DmaMode::Idle, ..state }, CpuSlotAction::FinishDma, true)
            }
        },
    }
}

/// A scheduled NMI counts down once per tick and fires when it reaches zero. Returns the
/// new schedule and whether the NMI fires now.
pub fn nmi_countdown(scheduled: Option<u8>) -> (r: (Option<u8>, bool))
    ensures
        r == (match scheduled {
            Some(0u8) => (None, true),
            Some(n) => (Some((n - 1) as u8), false),
            None => (None, false),
        }),
{
    match scheduled {
        Some(ct) => {
            if ct == 0 {
                (None, true)
            } else {
                (Some(ct - 1), false)
            }
        },
        None => (None, false),
    }
}

/// Sprite DMA copies every byte of the page exactly once, in order: byte `k` at transfer
/// cycle `2k`, and odd cycles copy nothing.
pub proof fn lemma_dma_copies_each_byte_once(state: DmaState, cpu_rdy: bool, page: u8, k: int)
    requires
        state.mode == DmaMode::Oam,
        state.oam_transfer_cycles < OAM_DMA_DONE_CYCLES,
        0 <= k < 256,
    ensures
        (cpu_slot_spec(state, cpu_rdy, page).1 == CpuSlotAction::CopyDmaByte {
            addr: (page as int * 256 + k) as u16,
        }) <==> state.oam_transfer_cycles == 2 * k,
        state.oam_transfer_cycles % 2 == 1 ==> cpu_slot_spec(state, cpu_rdy, page).1 == CpuSlotAction::WaitDma,
{
    let c = state.oam_transfer_cycles as int;
    if c % 2 == 0 {
        assert((page as int * 256 + c / 2) as u16 == (page as int * 256 + k) as u16 <==> c / 2 == k) by (nonlinear_arith)
            requires
                0 <= c / 2 < 256,
                0 <= k < 256,
                page < 256;
    }
}

} // verus!
