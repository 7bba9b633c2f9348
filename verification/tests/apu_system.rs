use lib::apu::frame_counter::step_frame_counter;
use lib::nes::apu::{ApuError, APU};

#[test]
fn apu_status_reports_running_length_counters() {
    let mut apu = APU::new();
    apu.write(0x4015, 0b0000_1111);
    apu.write(0x4003, 0b0000_1000);
    apu.write(0x400B, 0b0001_0000);
    assert_eq!(apu.read(0x4015), 0b0000_0101);
    assert!(apu.error.is_none());
}

#[test]
fn apu_disable_silences_channel() {
    let mut apu = APU::new();
    apu.write(0x4015, 0b0000_0001);
    apu.write(0x4003, 0b0000_1000);
    assert_eq!(apu.read(0x4015) & 1, 1);
    apu.write(0x4015, 0);
    assert_eq!(apu.read(0x4015) & 1, 0);
    assert!(!apu.enable_pulse1);
}

#[test]
fn apu_invalid_register_access_records_error() {
    let mut apu = APU::new();
    apu.write(0x4018, 1);
    assert_eq!(apu.error, Some(ApuError::InvalidRegisterWrite(0x4018)));
    assert_eq!(apu.read(0x4000), 0);
    assert_eq!(apu.error, Some(ApuError::InvalidRegisterRead(0x4000)));
}

#[test]
fn apu_four_step_frame_raises_irq() {
    let mut apu = APU::new();
    let mut irqs = 0;
    for cycle in 0..(2 * 14915) {
        if apu.clock(cycle) {
            irqs += 1;
        }
    }
    assert_eq!(irqs, 1);
    assert_eq!(apu.clock_counter, 0);
}

#[test]
fn apu_irq_inhibit_and_five_step_mode() {
    let mut apu = APU::new();
    apu.write(0x4017, 0b0100_0000);
    let mut irqs = 0;
    for cycle in 0..(2 * 14915) {
        if apu.clock(cycle) {
            irqs += 1;
        }
    }
    assert_eq!(irqs, 0);
    apu.write(0x4017, 0b1000_0000);
    assert!(apu.master_sequence_mode);
}

#[test]
fn frame_counter_wraps_after_full_sequence() {
    let s = step_frame_counter(14914, false, false);
    assert_eq!(s.counter, 0);
    assert!(s.half && s.quarter && s.irq);
    let s = step_frame_counter(18639, true, false);
    assert_eq!(s.counter, 0);
    assert!(!s.irq);
    let s = step_frame_counter(3728, false, false);
    assert!(s.quarter && !s.half);
}

#[test]
fn dmc_sample_length_uses_all_eight_bits() {
    let mut apu = APU::new();
    apu.write(0x4013, 0xFF);
    assert_eq!(apu.dmc.sample_length, 4081);
    apu.write(0x4013, 0x00);
    assert_eq!(apu.dmc.sample_length, 1);
    assert!(apu.error.is_none());
}
