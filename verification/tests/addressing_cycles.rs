use lib::nes::cpu::addressing_cycles::{AddrResult, CpuCycleState, ExecPhase};
use lib::nes::cpu::opcodes::Operation;
use lib::nes::cpu::instruction_handlers::Registers;
use lib::nes::cpu::{AccessType, AddressingMode};

fn regs_at(pc: u16, x: u8, y: u8) -> Registers {
    Registers { register_a: 0, register_x: x, register_y: y, stack_pointer: 0xFD, status: 0x24, program_counter: pc }
}

fn run(mode: AddressingMode, access: AccessType, regs: &mut Registers, ram: &mut Vec<u8>) -> Vec<AddrResult> {
    let mut state = CpuCycleState::new(access);
    let mut results = Vec::new();
    for _ in 0..6 {
        let r = state.tick_addressing_mode(mode, regs, ram);
        results.push(r);
        if r != AddrResult::InProgress {
            break;
        }
    }
    results
}

#[test]
fn absolute_x_read_without_page_cross_takes_two_cycles() {
    let mut ram = vec![0u8; 0x10000];
    ram[0x0600] = 0x10;
    ram[0x0601] = 0x12;
    let mut regs = regs_at(0x0600, 0x05, 0);
    let r = run(AddressingMode::AbsoluteX, AccessType::Read, &mut regs, &mut ram);
    assert_eq!(r, vec![AddrResult::InProgress, AddrResult::Ready(0x1215)]);
    assert_eq!(regs.program_counter, 0x0602);
}

#[test]
fn absolute_x_read_crossing_a_page_takes_three_cycles() {
    let mut ram = vec![0u8; 0x10000];
    ram[0x0600] = 0xFF;
    ram[0x0601] = 0x12;
    let mut regs = regs_at(0x0600, 0x01, 0);
    let r = run(AddressingMode::AbsoluteX, AccessType::Read, &mut regs, &mut ram);
    assert_eq!(r, vec![AddrResult::InProgress, AddrResult::InProgress, AddrResult::Ready(0x1300)]);
}

#[test]
fn absolute_y_write_always_takes_the_extra_cycle() {
    let mut ram = vec![0u8; 0x10000];
    ram[0x0600] = 0x10;
    ram[0x0601] = 0x12;
    let mut regs = regs_at(0x0600, 0, 0x01);
    let r = run(AddressingMode::AbsoluteY, AccessType::Write, &mut regs, &mut ram);
    assert_eq!(r, vec![AddrResult::InProgress, AddrResult::InProgress, AddrResult::Ready(0x1211)]);
}

#[test]
fn zero_page_x_wraps_in_page_zero() {
    let mut ram = vec![0u8; 0x10000];
    ram[0x0600] = 0xF0;
    let mut regs = regs_at(0x0600, 0x20, 0);
    let r = run(AddressingMode::ZeroPageX, AccessType::Read, &mut regs, &mut ram);
    assert_eq!(r, vec![AddrResult::InProgress, AddrResult::Ready(0x0010)]);
}

#[test]
fn indirect_x_reads_pointer_in_page_zero() {
    let mut ram = vec![0u8; 0x10000];
    ram[0x0600] = 0x20;
    ram[0x0024] = 0x74;
    ram[0x0025] = 0x20;
    let mut regs = regs_at(0x0600, 0x04, 0);
    let r = run(AddressingMode::IndirectX, AccessType::Read, &mut regs, &mut ram);
    assert_eq!(r.last(), Some(&AddrResult::Ready(0x2074)));
    assert_eq!(r.len(), 4);
}

#[test]
fn indirect_y_adds_y_to_the_pointer() {
    let mut ram = vec![0u8; 0x10000];
    ram[0x0600] = 0x86;
    ram[0x0086] = 0x28;
    ram[0x0087] = 0x40;
    let mut regs = regs_at(0x0600, 0, 0x10);
    let r = run(AddressingMode::IndirectY, AccessType::Read, &mut regs, &mut ram);
    assert_eq!(r, vec![AddrResult::InProgress, AddrResult::InProgress, AddrResult::Ready(0x4038)]);
}

#[test]
fn indirect_jmp_does_not_carry_into_the_pointer_page() {
    let mut ram = vec![0u8; 0x10000];
    ram[0x0600] = 0xFF;
    ram[0x0601] = 0x10;
    ram[0x10FF] = 0x34;
    ram[0x1000] = 0x12;
    ram[0x1100] = 0x99;
    let mut regs = regs_at(0x0600, 0, 0);
    let r = run(AddressingMode::Indirect, AccessType::Read, &mut regs, &mut ram);
    assert_eq!(r.last(), Some(&AddrResult::Ready(0x1234)));
}

#[test]
fn immediate_returns_the_operand_byte() {
    let mut ram = vec![0u8; 0x10000];
    ram[0x0600] = 0x42;
    let mut regs = regs_at(0x0600, 0, 0);
    let r = run(AddressingMode::Immediate, AccessType::Read, &mut regs, &mut ram);
    assert_eq!(r, vec![AddrResult::ReadyImmediate(0x42)]);
    assert_eq!(regs.program_counter, 0x0601);
}

#[test]
fn lda_absolute_reads_in_its_third_cycle() {
    let mut ram = vec![0u8; 0x10000];
    ram[0x0600] = 0x34;
    ram[0x0601] = 0x12;
    ram[0x1234] = 0x80;
    let mut regs = regs_at(0x0600, 0, 0);
    let mut state = CpuCycleState::new(AccessType::Read);
    assert!(!state.exec_read_cycle(AddressingMode::Absolute, Operation::Lda, &mut regs, &mut ram));
    assert!(!state.exec_read_cycle(AddressingMode::Absolute, Operation::Lda, &mut regs, &mut ram));
    assert!(state.exec_read_cycle(AddressingMode::Absolute, Operation::Lda, &mut regs, &mut ram));
    assert_eq!(regs.register_a, 0x80);
    assert_eq!(regs.status & 0x80, 0x80);
    assert_eq!(state.exec_phase, ExecPhase::Done);
}

#[test]
fn lda_immediate_finishes_at_once() {
    let mut ram = vec![0u8; 0x10000];
    ram[0x0600] = 0x00;
    let mut regs = regs_at(0x0600, 0, 0);
    regs.register_a = 5;
    let mut state = CpuCycleState::new(AccessType::Read);
    assert!(state.exec_read_cycle(AddressingMode::Immediate, Operation::Lda, &mut regs, &mut ram));
    assert_eq!(regs.register_a, 0);
    assert_eq!(regs.status & 0x02, 0x02);
}

#[test]
fn sta_zero_page_writes_in_its_second_cycle() {
    let mut ram = vec![0u8; 0x10000];
    ram[0x0600] = 0x40;
    let mut regs = regs_at(0x0600, 0, 0);
    regs.register_a = 0x5A;
    let mut state = CpuCycleState::new(AccessType::Write);
    assert!(!state.exec_write_cycle(AddressingMode::ZeroPage, Operation::Sta, &mut regs, &mut ram));
    assert_eq!(ram[0x40], 0);
    assert!(state.exec_write_cycle(AddressingMode::ZeroPage, Operation::Sta, &mut regs, &mut ram));
    assert_eq!(ram[0x40], 0x5A);
}

#[test]
fn inc_zero_page_reads_writes_back_then_writes_the_result() {
    let mut ram = vec![0u8; 0x10000];
    ram[0x0600] = 0x40;
    ram[0x0040] = 0x7F;
    let mut regs = regs_at(0x0600, 0, 0);
    let mut state = CpuCycleState::new(AccessType::ReadModifyWrite);
    let mut cycles = 0;
    loop {
        cycles += 1;
        if state.exec_read_modify_write_cycle(AddressingMode::ZeroPage, Operation::Inc, &mut regs, &mut ram) {
            break;
        }
        assert!(cycles < 10);
    }
    assert_eq!(cycles, 4);
    assert_eq!(ram[0x40], 0x80);
    assert_eq!(regs.status & 0x80, 0x80);
}

#[test]
fn branch_timing_depends_on_taken_and_page() {
    // BNE with Z clear: taken; from $06F0 the next instruction is $06F2, +0x20 crosses.
    let mut ram = vec![0u8; 0x10000];
    ram[0x06F1] = 0x20;
    let mut regs = regs_at(0x06F1, 0, 0);
    regs.status = 0x24;
    let mut state = CpuCycleState::new(AccessType::Read);
    assert!(!state.exec_branch_cycle(Operation::Bne, &mut regs, &mut ram));
    assert!(!state.exec_branch_cycle(Operation::Bne, &mut regs, &mut ram));
    assert_eq!(regs.program_counter, 0x0712);
    assert!(state.exec_branch_cycle(Operation::Bne, &mut regs, &mut ram));

    // Same page, backwards.
    ram[0x0611] = 0xFC;
    let mut regs = regs_at(0x0611, 0, 0);
    regs.status = 0x24;
    let mut state = CpuCycleState::new(AccessType::Read);
    assert!(!state.exec_branch_cycle(Operation::Bne, &mut regs, &mut ram));
    assert!(state.exec_branch_cycle(Operation::Bne, &mut regs, &mut ram));
    assert_eq!(regs.program_counter, 0x060E);

    // Not taken: Z set.
    let mut regs = regs_at(0x0611, 0, 0);
    regs.status = 0x26;
    let mut state = CpuCycleState::new(AccessType::Read);
    assert!(state.exec_branch_cycle(Operation::Bne, &mut regs, &mut ram));
    assert_eq!(regs.program_counter, 0x0612);
}
