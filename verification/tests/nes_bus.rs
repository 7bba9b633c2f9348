use lib::cartridge::nrom::NromCart;
use lib::nes::bus::nes_bus::NesBus;
use lib::nes::cartridge::rom::Mirroring;
use lib::nes::timing::{CpuSlotAction, DmaMode, DmaState};

fn bare_bus() -> NesBus<NromCart> {
    NesBus::new()
}

fn cart_with_reset_vector(lo: u8, hi: u8) -> NromCart {
    let mut prg = vec![0u8; 0x8000];
    prg[0x7FFC] = lo;
    prg[0x7FFD] = hi;
    prg[0x1234] = 0xC3;
    NromCart::new(prg, vec![0x11; 0x2000], Mirroring::Horizontal)
}

#[test]
fn ram_is_mirrored_every_2k() {
    let mut bus = bare_bus();
    bus.cpu_bus_write(0x0012, 0x34);
    assert_eq!(bus.cpu_bus_read(0x0812), 0x34);
    assert_eq!(bus.cpu_bus_read(0x1812), 0x34);
    assert_eq!(bus.last_cpu_read, 0x34);
}

#[test]
fn sprite_dma_write_schedules_a_halt_and_keeps_the_page() {
    let mut bus = bare_bus();
    bus.cpu_bus_write(0x0000, 0x99);
    bus.cpu_bus_write(0x4014, 0x02);
    assert!(bus.cpu.halt_scheduled);
    assert_eq!(bus.oam_dma_addr, 0x02);
    assert_eq!(bus.cpu_bus_read(0x0000), 0x99);
}

#[test]
fn writes_to_4018_through_401f_are_dropped() {
    let mut bus = bare_bus();
    bus.cpu_bus_write(0x0005, 0x77);
    for addr in 0x4018..=0x401Fu16 {
        bus.cpu_bus_write(addr, 0xFF);
    }
    assert_eq!(bus.cpu_bus_read(0x0005), 0x77);
    assert!(!bus.cpu.halt_scheduled);
    assert_eq!(bus.cpu_bus_read(0x401A), 0x77);
}

#[test]
fn apu_registers_are_reached() {
    let mut bus = bare_bus();
    assert_eq!(bus.cpu_bus_read(0x4015), 0);
    bus.cpu_bus_write(0x4015, 0x01);
    assert!(bus.apu.enable_pulse1);
    assert_eq!(bus.cpu_bus_read(0x4017), 0);
}

#[test]
fn cartridge_sets_the_reset_vector() {
    let bus = NesBus::new_with_cartridge(cart_with_reset_vector(0x00, 0x80));
    assert_eq!(bus.cpu.program_counter, 0x8000);
    assert_eq!(bus.ppu.pattern_table[0], 0x11);
    assert_eq!(bus.ppu.mirroring, Mirroring::Horizontal);
}

#[test]
fn cartridge_answers_program_reads() {
    let mut bus = NesBus::new_with_cartridge(cart_with_reset_vector(0x00, 0x80));
    assert_eq!(bus.cpu_bus_read(0x9234), 0xC3);
}

#[test]
fn scheduled_nmi_counts_down_then_reaches_the_processor() {
    let mut bus = bare_bus();
    bus.nmi_scheduled = Some(1);
    bus.tick();
    assert_eq!(bus.nmi_scheduled, Some(0));
    assert!(!bus.cpu.nmi_pending);
    bus.tick();
    assert_eq!(bus.nmi_scheduled, None);
    assert!(bus.cpu.nmi_pending);
}

#[test]
fn dma_slots_copy_the_page_into_sprite_memory() {
    let mut bus = bare_bus();
    for i in 0..256u16 {
        bus.cpu_bus_write(0x0200 + i, i as u8);
    }
    bus.cpu_bus_write(0x4014, 0x02);
    // The processor pauses at its next read cycle.
    bus.cpu.halt_scheduled = false;
    bus.cpu.rdy = false;
    let mut dma = DmaState { mode: DmaMode::Idle, oam_transfer_cycles: 0 };
    let mut slots = 0;
    loop {
        let (next, action) = bus.dma_slot(dma);
        dma = next;
        slots += 1;
        if action == CpuSlotAction::FinishDma {
            break;
        }
        assert!(slots < 1000);
    }
    assert_eq!(slots, 514);
    assert!(bus.cpu.rdy);
    for i in 0..256usize {
        assert_eq!(bus.ppu.oam_data[i], i as u8);
    }
}
