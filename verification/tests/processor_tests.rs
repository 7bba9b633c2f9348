use lib::nes::bus::simple_bus::SimpleBus;
use lib::nes::cpu::instruction_handlers::{rotate_value_left, rotate_value_right};
use lib::nes::cpu::Flags;

fn init_cpu_and_bus(program: &[u8]) -> SimpleBus {
    let mut bus = SimpleBus::new(program.to_vec());
    bus.cpu.program_counter = 0x0000;
    bus
}

fn run_test_program(bus: &mut SimpleBus) -> usize {
    let mut total_cycles = 0;
    loop {
        let (cycles, is_breaking) = bus.tick();
        total_cycles += cycles as usize;
        if is_breaking {
            break;
        }
    }
    total_cycles
}

#[test]
fn processor_tests_test_0xaa_tax_0xa8_tay() {
    let program = &[0xa9, 0x42, 0xAA, 0xA8, 0x02];
    let mut bus = init_cpu_and_bus(program);
    run_test_program(&mut bus);
    assert_eq!(bus.cpu.register_x, 0x42);
    assert_eq!(bus.cpu.register_y, 0x42);
    assert_eq!(bus.cpu.status.contains(Flags::ZERO), false);
    assert_eq!(bus.cpu.status.contains(Flags::NEGATIVE), false);
}

#[test]
fn processor_tests_test_0xa9_lda_immediate_load_data() {
    let program = &[0xa9, 0x05, 0x02];
    let mut bus = init_cpu_and_bus(program);
    run_test_program(&mut bus);
    assert_eq!(bus.cpu.register_a, 0x05);
    assert_eq!(bus.cpu.status.contains(Flags::ZERO), false);
    assert_eq!(bus.cpu.status.contains(Flags::NEGATIVE), false);
}

#[test]
fn processor_tests_test_0xa9_lda_zero_flag() {
    let program = &[0xa9, 0x00, 0x02];
    let mut bus = init_cpu_and_bus(program);
    run_test_program(&mut bus);
    assert_eq!(bus.cpu.status.contains(Flags::ZERO), true);
}

#[test]
fn processor_tests_test_0xa5_lda_zero_page_load_data() {
    let program = &[0xa5, 0x05, 0x02];
    let mut bus = init_cpu_and_bus(program);
    bus.cpu_ram[0x05] = 0x42;
    run_test_program(&mut bus);
    assert_eq!(bus.cpu.register_a, 0x42);
    assert_eq!(bus.cpu.status.contains(Flags::ZERO), false);
    assert_eq!(bus.cpu.status.contains(Flags::NEGATIVE), false);
}

#[test]
fn processor_tests_test_0xa5_lda_zero_page_x_load_data() {
    let program = &[0xa9, 0x0F, 0xAA, 0xB5, 0x80, 0x02];
    let mut bus = init_cpu_and_bus(program);
    bus.cpu_ram[0x8F] = 0x42;
    run_test_program(&mut bus);
    assert_eq!(bus.cpu.register_a, 0x42);
    assert_eq!(bus.cpu.register_x, 0x0F);
    assert_eq!(bus.cpu.status.contains(Flags::ZERO), false);
    assert_eq!(bus.cpu.status.contains(Flags::NEGATIVE), false);
}

#[test]
fn processor_tests_test_0xb5_lda_absolute_load_data() {
    let program = &[0xAD, 0xEF, 0xBE, 0xAA, 0x02];
    let mut bus = init_cpu_and_bus(program);
    bus.cpu_ram[0xBEEF] = 0x42;
    let cycles = run_test_program(&mut bus);
    assert_eq!(bus.cpu.register_a, 0x42);
    assert_eq!(bus.cpu.register_x, 0x42);
    assert_eq!(cycles, 4 + 2 + 11);
    assert_eq!(bus.cpu.status.contains(Flags::ZERO), false);
    assert_eq!(bus.cpu.status.contains(Flags::NEGATIVE), false);
}

#[test]
fn processor_tests_test_set_flags() {
    let program = &[0x38, 0x78, 0xF8, 0x02];
    let mut bus = init_cpu_and_bus(program);
    run_test_program(&mut bus);
    assert_eq!(bus.cpu.status.contains(Flags::CARRY), true);
    assert_eq!(bus.cpu.status.contains(Flags::INTERRUPT_DISABLE), true);
    assert_eq!(bus.cpu.status.contains(Flags::DECIMAL_MODE), true);
}

#[test]
fn processor_tests_test_set_and_clear_flags() {
    let program = &[0x38, 0x78, 0xF8, 0x18, 0x58, 0xD8, 0x02];
    let mut bus = init_cpu_and_bus(program);
    run_test_program(&mut bus);
    assert_eq!(bus.cpu.status.contains(Flags::CARRY), false);
    assert_eq!(bus.cpu.status.contains(Flags::INTERRUPT_DISABLE), false);
    assert_eq!(bus.cpu.status.contains(Flags::DECIMAL_MODE), false);
}

#[test]
fn processor_tests_test_adc_without_carry() {
    let program = &[0xA9, 0x10, 0x69, 0x07, 0x02];
    let mut bus = init_cpu_and_bus(program);
    run_test_program(&mut bus);
    assert_eq!(bus.cpu.register_a, 0x17);
    assert_eq!(bus.cpu.status.contains(Flags::CARRY), false);
    assert_eq!(bus.cpu.status.contains(Flags::OVERFLOW), false);
}

#[test]
fn processor_tests_test_adc_with_overflow() {
    let program = &[0xA9, 0x7F, 0x69, 0x0F, 0x02];
    let mut bus = init_cpu_and_bus(program);
    run_test_program(&mut bus);
    assert_eq!(bus.cpu.status.contains(Flags::CARRY), false);
    assert_eq!(bus.cpu.status.contains(Flags::OVERFLOW), true);
    assert_eq!(bus.cpu.register_a, 0x8E);
}

#[test]
fn processor_tests_test_adc_with_carry() {
    let program = &[0xA9, 0xFF, 0x69, 0x0F, 0x02];
    let mut bus = init_cpu_and_bus(program);
    run_test_program(&mut bus);
    assert_eq!(bus.cpu.status.contains(Flags::CARRY), true);
    assert_eq!(bus.cpu.status.contains(Flags::OVERFLOW), false);
    assert_eq!(bus.cpu.register_a, 0x0E);
}

#[test]
fn processor_tests_test_sbc_without_borrow() {
    let program = &[0xA9, 0xFF, 0x38, 0xE9, 0x0F, 0x02];
    let mut bus = init_cpu_and_bus(program);
    run_test_program(&mut bus);
    assert_eq!(bus.cpu.status.contains(Flags::CARRY), true);
    assert_eq!(bus.cpu.status.contains(Flags::OVERFLOW), false);
    assert_eq!(bus.cpu.register_a, 0xF0);
}

#[test]
fn processor_tests_test_sbc_with_borrow() {
    let program = &[0xA9, 0x00, 0x38, 0xE9, 0x01, 0x02];
    let mut bus = init_cpu_and_bus(program);
    run_test_program(&mut bus);
    assert_eq!(bus.cpu.status.contains(Flags::CARRY), false);
    assert_eq!(bus.cpu.status.contains(Flags::OVERFLOW), false);
    assert_eq!(bus.cpu.register_a, 0xFF);
}

#[test]
fn processor_tests_test_rotate_value_right() {
    let (result, new_carry) = rotate_value_right(0xE0, true);
    assert_eq!(result, 240);
    assert_eq!(new_carry, false);
}

#[test]
fn processor_tests_test_rotate_value_left() {
    let (result, new_carry) = rotate_value_left(0xE0, true);
    assert_eq!(result, 193);
    assert_eq!(new_carry, true);
}

#[test]
fn processor_tests_test_0x8a_txa() {
    let program = &[0x8A, 0x02];
    let mut bus = init_cpu_and_bus(program);
    bus.cpu.set_register_x(0x42);
    run_test_program(&mut bus);
    assert_eq!(bus.cpu.register_a, 0x42);
}

#[test]
fn processor_tests_test_0x98_tya() {
    let program = &[0x98, 0x02];
    let mut bus = init_cpu_and_bus(program);
    bus.cpu.set_register_y(0x88);
    run_test_program(&mut bus);
    assert_eq!(bus.cpu.register_a, 0x88);
}

#[test]
fn processor_tests_test_0xba_tsx() {
    let program = &[0xBA, 0x02];
    let mut bus = init_cpu_and_bus(program);
    bus.cpu.stack_pointer = 0x37;
    run_test_program(&mut bus);
    assert_eq!(bus.cpu.register_x, 0x37);
}

#[test]
fn processor_tests_test_0x9a_txs() {
    let program = &[0x9A, 0x02];
    let mut bus = init_cpu_and_bus(program);
    bus.cpu.register_x = 0x33;
    run_test_program(&mut bus);
    assert_eq!(bus.cpu.stack_pointer, 0x33);
}

#[test]
fn processor_tests_test_0xd0_bne_success() {
    let program = &[0xD0, 0x0F, 0x02];
    let mut bus = init_cpu_and_bus(program);
    bus.cpu.status.set(Flags::ZERO, false);
    bus.cpu_ram[0x0011] = 0x02;
    run_test_program(&mut bus);
    assert_eq!(bus.cpu.program_counter, 0x12);
}

#[test]
fn processor_tests_test_0xd0_bne_failed() {
    let program = &[0xD0, 0x0F, 0x02];
    let mut bus = init_cpu_and_bus(program);
    bus.cpu.status.set(Flags::ZERO, true);
    run_test_program(&mut bus);
    assert_eq!(bus.cpu.program_counter, 0x03);
}

#[test]
fn jam_halts_with_cpu_error() {
    let mut bus = init_cpu_and_bus(&[0x02]);
    let (cycles, halted) = bus.tick();
    assert_eq!(cycles, 11);
    assert!(halted);
    assert!(bus.cpu.error.is_some());
}

#[test]
fn reset_reads_state_and_starts_at_zero() {
    let mut bus = init_cpu_and_bus(&[0xA9, 0x01, 0x02]);
    bus.reset();
    assert_eq!(bus.cpu.program_counter, 0);
    assert_eq!(bus.cpu.stack_pointer, 0xFF);
    assert_eq!(bus.cycles, 0);
}

#[test]
fn load_places_the_program_at_8000_and_points_there() {
    let mut ram = vec![0u8; 0x10000];
    let mut cpu = lib::nes::cpu::CPU::new();
    cpu.register_a = 9;
    cpu.load(&mut ram, &[0xA9, 0x05, 0x00]);
    assert_eq!(cpu.program_counter, 0x8000);
    assert_eq!(cpu.register_a, 0);
    assert_eq!(cpu.fetch_byte(&mut ram, 0x8000), 0xA9);
    assert_eq!(cpu.fetch_u16(&mut ram, 0x8000), 0x05A9);
    cpu.store_byte(&mut ram, 0x0010, 0x42);
    assert_eq!(cpu.fetch_byte(&mut ram, 0x0010), 0x42);
    cpu.load_program_at(&mut ram, &[1, 2], 0xFFFF);
    assert_eq!(ram[0xFFFF], 1);
    assert_eq!(ram[0x0000], 2);
    assert_eq!(cpu.fetch_u16(&mut ram, 0xFFFF), 0x0201);
}
