use vstd::prelude::*;

verus! {

#[derive(Clone, Copy, Debug, PartialEq, Eq, Structural)]
pub enum InterruptType {
    /// Non-maskable interrupt, raised by the PPU at VBLANK.
    Nmi,
    Irq,
    /// Software interrupt.
    Brk,
}

/// What servicing an interrupt takes: its vector, the B bits pushed with the status, its cycles.
#[derive(Clone, Copy, Debug, PartialEq, Eq, Structural)]
pub struct Interrupt {
    pub interrupt_type: InterruptType,
    pub vector_addr: u16,
    pub b_flag_mask: u8,
    pub cpu_cycles: u8,
}

pub open spec fn nmi_spec() -> Interrupt {
    Interrupt { interrupt_type: InterruptType::Nmi, vector_addr: 0xFFFA, b_flag_mask: 0b0010_0000, cpu_cycles: 7 }
}

pub open spec fn brk_spec() -> Interrupt {
    Interrupt { interrupt_type: InterruptType::Brk, vector_addr: 0xFFFE, b_flag_mask: 0b0011_0000, cpu_cycles: 7 }
}

pub open spec fn irq_spec() -> Interrupt {
    Interrupt { interrupt_type: InterruptType::Irq, vector_addr: 0xFFFE, b_flag_mask: 0b0000_0000, cpu_cycles: 7 }
}

/// The NMI vector lives at $FFFA.
pub fn nmi() -> (i: Interrupt)
    ensures
        i == nmi_spec(),
{
    Interrupt { interrupt_type: InterruptType::Nmi, vector_addr: 0xFFFA, b_flag_mask: 0b0010_0000, cpu_cycles: 7 }
}

/// The BRK vector lives at $FFFE.
pub fn brk() -> (i: Interrupt)
    ensures
        i == brk_spec(),
{
    Interrupt { interrupt_type: InterruptType::Brk, vector_addr: 0xFFFE, b_flag_mask: 0b0011_0000, cpu_cycles: 7 }
}

/// The IRQ vector lives at $FFFE.
pub fn irq() -> (i: Interrupt)
    ensures
        i == irq_spec(),
{
    Interrupt { interrupt_type: InterruptType::Irq, vector_addr: 0xFFFE, b_flag_mask: 0b0000_0000, cpu_cycles: 7 }
}

/// The interrupt vectors: NMI at $FFFA, IRQ and BRK at $FFFE. BRK pushes the status with
/// the B bit (bit 4) set, NMI and IRQ with it clear; each takes 7 cycles.
pub proof fn lemma_interrupt_vectors()
    ensures
        nmi_spec().vector_addr == 0xFFFA && nmi_spec().interrupt_type == InterruptType::Nmi,
        irq_spec().vector_addr == 0xFFFE && irq_spec().interrupt_type == InterruptType::Irq,
        brk_spec().vector_addr == 0xFFFE && brk_spec().interrupt_type == InterruptType::Brk,
        (brk_spec().b_flag_mask / 16) % 2 == 1,
        (nmi_spec().b_flag_mask / 16) % 2 == 0,
        (irq_spec().b_flag_mask / 16) % 2 == 0,
        nmi_spec().cpu_cycles == 7 && irq_spec().cpu_cycles == 7 && brk_spec().cpu_cycles == 7,
{
}

} // verus!
