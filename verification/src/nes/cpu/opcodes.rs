use vstd::prelude::*;
use super::{AccessType, AddressingMode};

verus! {

/// What an opcode does, once its operand is found.
#[derive(Clone, Copy, Debug, PartialEq, Eq, Structural)]
pub enum Operation {
    Brk,
    Nop,
    Tax,
    Tay,
    Txa,
    Tya,
    Tsx,
    Txs,
    Sed,
    Sei,
    Sec,
    Cld,
    Cli,
    Clc,
    Clv,
    Lda,
    Ldx,
    Ldy,
    Sta,
    Stx,
    Sty,
    Pla,
    Plp,
    Pha,
    Php,
    AslAcc,
    Asl,
    LsrAcc,
    Lsr,
    RolAcc,
    Rol,
    RorAcc,
    Ror,
    Inc,
    Inx,
    Iny,
    Dec,
    Dex,
    Dey,
    Cmp,
    Cpx,
    Cpy,
    Adc,
    Sbc,
    And,
    Eor,
    Ora,
    Jmp,
    Jsr,
    Rts,
    Rti,
    Bne,
    Bvs,
    Bvc,
    Bmi,
    Beq,
    Bcs,
    Bcc,
    Bpl,
    Bit,
    FatNop,
    Dcp,
    Rla,
    Slo,
    Sre,
    Rra,
    Isc,
    Lax,
    Sax,
    Sbx,
    Arr,
    Usbc,
    Anc,
    Alr,
    Las,
    Jam,
    Unstable,
}

/// The decoding of one opcode: what it does, how it finds its operand, how long it is.
#[derive(Clone, Copy, Debug, PartialEq, Eq, Structural)]
pub struct OpcodeInfo {
    pub operation: Operation,
    pub mode: AddressingMode,
    pub access_type: AccessType,
    pub size: u8,
    pub cycles: u8,
}

pub struct Opcode {
    pub code: u8,
    pub name: &'static str,
    pub cycles: u8,
    pub size: u8,
    pub mode: AddressingMode,
    pub access_type: AccessType,
    pub operation: Operation,
}

impl Opcode {
    pub open spec fn info(self) -> OpcodeInfo {
        OpcodeInfo {
            operation: self.operation,
            mode: self.mode,
            access_type: self.access_type,
            size: self.size,
            cycles: self.cycles,
        }
    }

    pub fn new(
        value: u8,
        name: &'static str,
        size: u8,
        cycles: u8,
        mode: AddressingMode,
        access_type: AccessType,
        operation: Operation,
    ) -> (op: Opcode)
        ensures
            op.code == value,
            op.name == name,
            op.size == size,
            op.cycles == cycles,
            op.mode == mode,
            op.access_type == access_type,
            op.operation == operation,
    {
        Opcode { code: value, name, cycles, size, mode, access_type, operation }
    }
}


/// The decoding of every opcode: the official set and the unofficial ones the NES runs.
pub open spec fn opcode_table(code: u8) -> OpcodeInfo {
    match code / 16 {
        0 => opcode_row_0(code),
        1 => opcode_row_1(code),
        2 => opcode_row_2(code),
        3 => opcode_row_3(code),
        4 => opcode_row_4(code),
        5 => opcode_row_5(code),
        6 => opcode_row_6(code),
        7 => opcode_row_7(code),
        8 => opcode_row_8(code),
        9 => opcode_row_9(code),
        10 => opcode_row_a(code),
        11 => opcode_row_b(code),
        12 => opcode_row_c(code),
        13 => opcode_row_d(code),
        14 => opcode_row_e(code),
        15 => opcode_row_f(code),
        _ => opcode_row_f(code),
    }
}

pub open spec fn opcode_row_0(code: u8) -> OpcodeInfo {
    match code % 16 {
        0 => OpcodeInfo { operation: Operation::Brk, mode: AddressingMode::Implied, access_type: AccessType::Read, size: 2, cycles: 7 },
        1 => OpcodeInfo { operation: Operation::Ora, mode: AddressingMode::IndirectX, access_type: AccessType::Read, size: 2, cycles: 6 },
        2 => OpcodeInfo { operation: Operation::Jam, mode: AddressingMode::Implied, access_type: AccessType::Implied, size: 1, cycles: 11 },
        3 => OpcodeInfo { operation: Operation::Slo, mode: AddressingMode::IndirectX, access_type: AccessType::ReadModifyWrite, size: 2, cycles: 8 },
        4 => OpcodeInfo { operation: Operation::FatNop, mode: AddressingMode::ZeroPage, access_type: AccessType::Read, size: 2, cycles: 3 },
        5 => OpcodeInfo { operation: Operation::Ora, mode: AddressingMode::ZeroPage, access_type: AccessType::Read, size: 2, cycles: 3 },
        6 => OpcodeInfo { operation: Operation::Asl, mode: AddressingMode::ZeroPage, access_type: AccessType::ReadModifyWrite, size: 2, cycles: 5 },
        7 => OpcodeInfo { operation: Operation::Slo, mode: AddressingMode::ZeroPage, access_type: AccessType::ReadModifyWrite, size: 2, cycles: 5 },
        8 => OpcodeInfo { operation: Operation::Php, mode: AddressingMode::Implied, access_type: AccessType::Write, size: 1, cycles: 3 },
        9 => OpcodeInfo { operation: Operation::Ora, mode: AddressingMode::Immediate, access_type: AccessType::Read, size: 2, cycles: 2 },
        10 => OpcodeInfo { operation: Operation::AslAcc, mode: AddressingMode::Immediate, access_type: AccessType::Register, size: 1, cycles: 2 },
        11 => OpcodeInfo { operation: Operation::Anc, mode: AddressingMode::Immediate, access_type: AccessType::Read, size: 2, cycles: 2 },
        12 => OpcodeInfo { operation: Operation::FatNop, mode: AddressingMode::Absolute, access_type: AccessType::Read, size: 3, cycles: 4 },
        13 => OpcodeInfo { operation: Operation::Ora, mode: AddressingMode::Absolute, access_type: AccessType::Read, size: 3, cycles: 4 },
        14 => OpcodeInfo { operation: Operation::Asl, mode: AddressingMode::Absolute, access_type: AccessType::ReadModifyWrite, size: 3, cycles: 6 },
        _ => OpcodeInfo { operation: Operation::Slo, mode: AddressingMode::Absolute, access_type: AccessType::ReadModifyWrite, size: 3, cycles: 6 },
    }
}

pub open spec fn opcode_row_1(code: u8) -> OpcodeInfo {
    match code % 16 {
        0 => OpcodeInfo { operation: Operation::Bpl, mode: AddressingMode::Relative, access_type: AccessType::Read, size: 2, cycles: 2 },
        1 => OpcodeInfo { operation: Operation::Ora, mode: AddressingMode::IndirectY, access_type: AccessType::Read, size: 2, cycles: 5 },
        2 => OpcodeInfo { operation: Operation::Nop, mode: AddressingMode::Implied, access_type: AccessType::Read, size: 1, cycles: 11 },
        3 => OpcodeInfo { operation: Operation::Slo, mode: AddressingMode::IndirectY, access_type: AccessType::ReadModifyWrite, size: 2, cycles: 8 },
        4 => OpcodeInfo { operation: Operation::FatNop, mode: AddressingMode::ZeroPageX, access_type: AccessType::Read, size: 2, cycles: 4 },
        5 => OpcodeInfo { operation: Operation::Ora, mode: AddressingMode::ZeroPageX, access_type: AccessType::Read, size: 2, cycles: 4 },
        6 => OpcodeInfo { operation: Operation::Asl, mode: AddressingMode::ZeroPageX, access_type: AccessType::ReadModifyWrite, size: 2, cycles: 6 },
        7 => OpcodeInfo { operation: Operation::Slo, mode: AddressingMode::ZeroPageX, access_type: AccessType::ReadModifyWrite, size: 2, cycles: 6 },
        8 => OpcodeInfo { operation: Operation::Clc, mode: AddressingMode::Implied, access_type: AccessType::Register, size: 1, cycles: 2 },
        9 => OpcodeInfo { operation: Operation::Ora, mode: AddressingMode::AbsoluteY, access_type: AccessType::Read, size: 3, cycles: 4 },
        10 => OpcodeInfo { operation: Operation::Nop, mode: AddressingMode::Implied, access_type: AccessType::Read, size: 1, cycles: 2 },
        11 => OpcodeInfo { operation: Operation::Slo, mode: AddressingMode::AbsoluteY, access_type: AccessType::ReadModifyWrite, size: 3, cycles: 7 },
        12 => OpcodeInfo { operation: Operation::FatNop, mode: AddressingMode::AbsoluteX, access_type: AccessType::Read, size: 3, cycles: 4 },
        13 => OpcodeInfo { operation: Operation::Ora, mode: AddressingMode::AbsoluteX, access_type: AccessType::Read, size: 3, cycles: 4 },
        14 => OpcodeInfo { operation: Operation::Asl, mode: AddressingMode::AbsoluteX, access_type: AccessType::ReadModifyWrite, size: 3, cycles: 7 },
        _ => OpcodeInfo { operation: Operation::Slo, mode: AddressingMode::AbsoluteX, access_type: AccessType::ReadModifyWrite, size: 3, cycles: 7 },
    }
}

pub open spec fn opcode_row_2(code: u8) -> OpcodeInfo {
    match code % 16 {
        0 => OpcodeInfo { operation: Operation::Jsr, mode: AddressingMode::Absolute, access_type: AccessType::Read, size: 3, cycles: 6 },
        1 => OpcodeInfo { operation: Operation::And, mode: AddressingMode::IndirectX, access_type: AccessType::Read, size: 2, cycles: 6 },
        2 => OpcodeInfo { operation: Operation::Nop, mode: AddressingMode::Implied, access_type: AccessType::Read, size: 1, cycles: 11 },
        3 => OpcodeInfo { operation: Operation::Rla, mode: AddressingMode::IndirectX, access_type: AccessType::ReadModifyWrite, size: 2, cycles: 8 },
        4 => OpcodeInfo { operation: Operation::Bit, mode: AddressingMode::ZeroPage, access_type: AccessType::Read, size: 2, cycles: 3 },
        5 => OpcodeInfo { operation: Operation::And, mode: AddressingMode::ZeroPage, access_type: AccessType::Read, size: 2, cycles: 3 },
        6 => OpcodeInfo { operation: Operation::Rol, mode: AddressingMode::ZeroPage, access_type: AccessType::ReadModifyWrite, size: 2, cycles: 5 },
        7 => OpcodeInfo { operation: Operation::Rla, mode: AddressingMode::ZeroPage, access_type: AccessType::ReadModifyWrite, size: 2, cycles: 5 },
        8 => OpcodeInfo { operation: Operation::Plp, mode: AddressingMode::Implied, access_type: AccessType::Read, size: 1, cycles: 4 },
        9 => OpcodeInfo { operation: Operation::And, mode: AddressingMode::Immediate, access_type: AccessType::Read, size: 2, cycles: 2 },
        10 => OpcodeInfo { operation: Operation::RolAcc, mode: AddressingMode::Immediate, access_type: AccessType::Register, size: 1, cycles: 2 },
        11 => OpcodeInfo { operation: Operation::Anc, mode: AddressingMode::Immediate, access_type: AccessType::Read, size: 2, cycles: 2 },
        12 => OpcodeInfo { operation: Operation::Bit, mode: AddressingMode::Absolute, access_type: AccessType::Read, size: 3, cycles: 4 },
        13 => OpcodeInfo { operation: Operation::And, mode: AddressingMode::Absolute, access_type: AccessType::Read, size: 3, cycles: 4 },
        14 => OpcodeInfo { operation: Operation::Rol, mode: AddressingMode::Absolute, access_type: AccessType::ReadModifyWrite, size: 3, cycles: 6 },
        _ => OpcodeInfo { operation: Operation::Rla, mode: AddressingMode::Absolute, access_type: AccessType::ReadModifyWrite, size: 3, cycles: 6 },
    }
}

pub open spec fn opcode_row_3(code: u8) -> OpcodeInfo {
    match code % 16 {
        0 => OpcodeInfo { operation: Operation::Bmi, mode: AddressingMode::Relative, access_type: AccessType::Read, size: 2, cycles: 2 },
        1 => OpcodeInfo { operation: Operation::And, mode: AddressingMode::IndirectY, access_type: AccessType::Read, size: 2, cycles: 5 },
        2 => OpcodeInfo { operation: Operation::Nop, mode: AddressingMode::Implied, access_type: AccessType::Read, size: 1, cycles: 11 },
        3 => OpcodeInfo { operation: Operation::Rla, mode: AddressingMode::IndirectY, access_type: AccessType::ReadModifyWrite, size: 2, cycles: 8 },
        4 => OpcodeInfo { operation: Operation::FatNop, mode: AddressingMode::ZeroPageX, access_type: AccessType::Read, size: 2, cycles: 4 },
        5 => OpcodeInfo { operation: Operation::And, mode: AddressingMode::ZeroPageX, access_type: AccessType::Read, size: 2, cycles: 4 },
        6 => OpcodeInfo { operation: Operation::Rol, mode: AddressingMode::ZeroPageX, access_type: AccessType::ReadModifyWrite, size: 2, cycles: 6 },
        7 => OpcodeInfo { operation: Operation::Rla, mode: AddressingMode::ZeroPageX, access_type: AccessType::ReadModifyWrite, size: 2, cycles: 6 },
        8 => OpcodeInfo { operation: Operation::Sec, mode: AddressingMode::Implied, access_type: AccessType::Register, size: 1, cycles: 2 },
        9 => OpcodeInfo { operation: Operation::And, mode: AddressingMode::AbsoluteY, access_type: AccessType::Read, size: 3, cycles: 4 },
        10 => OpcodeInfo { operation: Operation::Nop, mode: AddressingMode::Implied, access_type: AccessType::Read, size: 1, cycles: 2 },
        11 => OpcodeInfo { operation: Operation::Rla, mode: AddressingMode::AbsoluteY, access_type: AccessType::ReadModifyWrite, size: 3, cycles: 7 },
        12 => OpcodeInfo { operation: Operation::FatNop, mode: AddressingMode::AbsoluteX, access_type: AccessType::Read, size: 3, cycles: 4 },
        13 => OpcodeInfo { operation: Operation::And, mode: AddressingMode::AbsoluteX, access_type: AccessType::Read, size: 3, cycles: 4 },
        14 => OpcodeInfo { operation: Operation::Rol, mode: AddressingMode::AbsoluteX, access_type: AccessType::ReadModifyWrite, size: 3, cycles: 7 },
        _ => OpcodeInfo { operation: Operation::Rla, mode: AddressingMode::AbsoluteX, access_type: AccessType::ReadModifyWrite, size: 3, cycles: 7 },
    }
}

pub open spec fn opcode_row_4(code: u8) -> OpcodeInfo {
    match code % 16 {
        0 => OpcodeInfo { operation: Operation::Rti, mode: AddressingMode::Implied, access_type: AccessType::Read, size: 1, cycles: 6 },
        1 => OpcodeInfo { operation: Operation::Eor, mode: AddressingMode::IndirectX, access_type: AccessType::Read, size: 2, cycles: 6 },
        2 => OpcodeInfo { operation: Operation::Nop, mode: AddressingMode::Implied, access_type: AccessType::Read, size: 1, cycles: 11 },
        3 => OpcodeInfo { operation: Operation::Sre, mode: AddressingMode::IndirectX, access_type: AccessType::ReadModifyWrite, size: 2, cycles: 8 },
        4 => OpcodeInfo { operation: Operation::FatNop, mode: AddressingMode::ZeroPage, access_type: AccessType::Read, size: 2, cycles: 3 },
        5 => OpcodeInfo { operation: Operation::Eor, mode: AddressingMode::ZeroPage, access_type: AccessType::Read, size: 2, cycles: 3 },
        6 => OpcodeInfo { operation: Operation::Lsr, mode: AddressingMode::ZeroPage, access_type: AccessType::ReadModifyWrite, size: 2, cycles: 5 },
        7 => OpcodeInfo { operation: Operation::Sre, mode: AddressingMode::ZeroPage, access_type: AccessType::ReadModifyWrite, size: 2, cycles: 5 },
        8 => OpcodeInfo { operation: Operation::Pha, mode: AddressingMode::Implied, access_type: AccessType::Write, size: 1, cycles: 3 },
        9 => OpcodeInfo { operation: Operation::Eor, mode: AddressingMode::Immediate, access_type: AccessType::Read, size: 2, cycles: 2 },
        10 => OpcodeInfo { operation: Operation::LsrAcc, mode: AddressingMode::Immediate, access_type: AccessType::Register, size: 1, cycles: 2 },
        11 => OpcodeInfo { operation: Operation::Alr, mode: AddressingMode::Immediate, access_type: AccessType::Read, size: 2, cycles: 2 },
        12 => OpcodeInfo { operation: Operation::Jmp, mode: AddressingMode::Absolute, access_type: AccessType::Read, size: 3, cycles: 3 },
        13 => OpcodeInfo { operation: Operation::Eor, mode: AddressingMode::Absolute, access_type: AccessType::Read, size: 3, cycles: 4 },
        14 => OpcodeInfo { operation: Operation::Lsr, mode: AddressingMode::Absolute, access_type: AccessType::ReadModifyWrite, size: 3, cycles: 6 },
        _ => OpcodeInfo { operation: Operation::Sre, mode: AddressingMode::Absolute, access_type: AccessType::ReadModifyWrite, size: 3, cycles: 6 },
    }
}

pub open spec fn opcode_row_5(code: u8) -> OpcodeInfo {
    match code % 16 {
        0 => OpcodeInfo { operation: Operation::Bvc, mode: AddressingMode::Relative, access_type: AccessType::Read, size: 2, cycles: 2 },
        1 => OpcodeInfo { operation: Operation::Eor, mode: AddressingMode::IndirectY, access_type: AccessType::Read, size: 2, cycles: 5 },
        2 => OpcodeInfo { operation: Operation::Nop, mode: AddressingMode::Implied, access_type: AccessType::Read, size: 1, cycles: 11 },
        3 => OpcodeInfo { operation: Operation::Sre, mode: AddressingMode::IndirectY, access_type: AccessType::ReadModifyWrite, size: 2, cycles: 8 },
        4 => OpcodeInfo { operation: Operation::FatNop, mode: AddressingMode::ZeroPageX, access_type: AccessType::Read, size: 2, cycles: 4 },
        5 => OpcodeInfo { operation: Operation::Eor, mode: AddressingMode::ZeroPageX, access_type: AccessType::Read, size: 2, cycles: 4 },
        6 => OpcodeInfo { operation: Operation::Lsr, mode: AddressingMode::ZeroPageX, access_type: AccessType::ReadModifyWrite, size: 2, cycles: 6 },
        7 => OpcodeInfo { operation: Operation::Sre, mode: AddressingMode::ZeroPageX, access_type: AccessType::ReadModifyWrite, size: 2, cycles: 6 },
        8 => OpcodeInfo { operation: Operation::Cli, mode: AddressingMode::Implied, access_type: AccessType::Register, size: 1, cycles: 2 },
        9 => OpcodeInfo { operation: Operation::Eor, mode: AddressingMode::AbsoluteY, access_type: AccessType::Read, size: 3, cycles: 4 },
        10 => OpcodeInfo { operation: Operation::Nop, mode: AddressingMode::Implied, access_type: AccessType::Read, size: 1, cycles: 2 },
        11 => OpcodeInfo { operation: Operation::Sre, mode: AddressingMode::AbsoluteY, access_type: AccessType::ReadModifyWrite, size: 3, cycles: 7 },
        12 => OpcodeInfo { operation: Operation::FatNop, mode: AddressingMode::AbsoluteX, access_type: AccessType::Read, size: 3, cycles: 4 },
        13 => OpcodeInfo { operation: Operation::Eor, mode: AddressingMode::AbsoluteX, access_type: AccessType::Read, size: 3, cycles: 4 },
        14 => OpcodeInfo { operation: Operation::Lsr, mode: AddressingMode::AbsoluteX, access_type: AccessType::ReadModifyWrite, size: 3, cycles: 7 },
        _ => OpcodeInfo { operation: Operation::Sre, mode: AddressingMode::AbsoluteX, access_type: AccessType::ReadModifyWrite, size: 3, cycles: 7 },
    }
}

pub open spec fn opcode_row_6(code: u8) -> OpcodeInfo {
    match code % 16 {
        0 => OpcodeInfo { operation: Operation::Rts, mode: AddressingMode::Implied, access_type: AccessType::Read, size: 1, cycles: 6 },
        1 => OpcodeInfo { operation: Operation::Adc, mode: AddressingMode::IndirectX, access_type: AccessType::Read, size: 2, cycles: 6 },
        2 => OpcodeInfo { operation: Operation::Nop, mode: AddressingMode::Implied, access_type: AccessType::Read, size: 1, cycles: 11 },
        3 => OpcodeInfo { operation: Operation::Rra, mode: AddressingMode::IndirectX, access_type: AccessType::ReadModifyWrite, size: 2, cycles: 8 },
        4 => OpcodeInfo { operation: Operation::FatNop, mode: AddressingMode::ZeroPage, access_type: AccessType::Read, size: 2, cycles: 3 },
        5 => OpcodeInfo { operation: Operation::Adc, mode: AddressingMode::ZeroPage, access_type: AccessType::Read, size: 2, cycles: 3 },
        6 => OpcodeInfo { operation: Operation::Ror, mode: AddressingMode::ZeroPage, access_type: AccessType::ReadModifyWrite, size: 2, cycles: 5 },
        7 => OpcodeInfo { operation: Operation::Rra, mode: AddressingMode::ZeroPage, access_type: AccessType::ReadModifyWrite, size: 2, cycles: 5 },
        8 => OpcodeInfo { operation: Operation::Pla, mode: AddressingMode::Implied, access_type: AccessType::Read, size: 1, cycles: 4 },
        9 => OpcodeInfo { operation: Operation::Adc, mode: AddressingMode::Immediate, access_type: AccessType::Read, size: 2, cycles: 2 },
        10 => OpcodeInfo { operation: Operation::RorAcc, mode: AddressingMode::Immediate, access_type: AccessType::Register, size: 1, cycles: 2 },
        11 => OpcodeInfo { operation: Operation::Arr, mode: AddressingMode::Immediate, access_type: AccessType::Read, size: 2, cycles: 2 },
        12 => OpcodeInfo { operation: Operation::Jmp, mode: AddressingMode::Indirect, access_type: AccessType::Read, size: 3, cycles: 5 },
        13 => OpcodeInfo { operation: Operation::Adc, mode: AddressingMode::Absolute, access_type: AccessType::Read, size: 3, cycles: 4 },
        14 => OpcodeInfo { operation: Operation::Ror, mode: AddressingMode::Absolute, access_type: AccessType::ReadModifyWrite, size: 3, cycles: 6 },
        _ => OpcodeInfo { operation: Operation::Rra, mode: AddressingMode::Absolute, access_type: AccessType::ReadModifyWrite, size: 3, cycles: 6 },
    }
}

pub open spec fn opcode_row_7(code: u8) -> OpcodeInfo {
    match code % 16 {
        0 => OpcodeInfo { operation: Operation::Bvs, mode: AddressingMode::Relative, access_type: AccessType::Read, size: 2, cycles: 2 },
        1 => OpcodeInfo { operation: Operation::Adc, mode: AddressingMode::IndirectY, access_type: AccessType::Read, size: 2, cycles: 5 },
        2 => OpcodeInfo { operation: Operation::Nop, mode: AddressingMode::Implied, access_type: AccessType::Read, size: 1, cycles: 11 },
        3 => OpcodeInfo { operation: Operation::Rra, mode: AddressingMode::IndirectY, access_type: AccessType::ReadModifyWrite, size: 2, cycles: 8 },
        4 => OpcodeInfo { operation: Operation::FatNop, mode: AddressingMode::ZeroPageX, access_type: AccessType::Read, size: 2, cycles: 4 },
        5 => OpcodeInfo { operation: Operation::Adc, mode: AddressingMode::ZeroPageX, access_type: AccessType::Read, size: 2, cycles: 4 },
        6 => OpcodeInfo { operation: Operation::Ror, mode: AddressingMode::ZeroPageX, access_type: AccessType::ReadModifyWrite, size: 2, cycles: 6 },
        7 => OpcodeInfo { operation: Operation::Rra, mode: AddressingMode::ZeroPageX, access_type: AccessType::ReadModifyWrite, size: 2, cycles: 6 },
        8 => OpcodeInfo { operation: Operation::Sei, mode: AddressingMode::Implied, access_type: AccessType::Register, size: 1, cycles: 2 },
        9 => OpcodeInfo { operation: Operation::Adc, mode: AddressingMode::AbsoluteY, access_type: AccessType::Read, size: 3, cycles: 4 },
        10 => OpcodeInfo { operation: Operation::Nop, mode: AddressingMode::Implied, access_type: AccessType::Read, size: 1, cycles: 2 },
        11 => OpcodeInfo { operation: Operation::Rra, mode: AddressingMode::AbsoluteY, access_type: AccessType::ReadModifyWrite, size: 3, cycles: 7 },
        12 => OpcodeInfo { operation: Operation::FatNop, mode: AddressingMode::AbsoluteX, access_type: AccessType::Read, size: 3, cycles: 4 },
        13 => OpcodeInfo { operation: Operation::Adc, mode: AddressingMode::AbsoluteX, access_type: AccessType::Read, size: 3, cycles: 4 },
        14 => OpcodeInfo { operation: Operation::Ror, mode: AddressingMode::AbsoluteX, access_type: AccessType::ReadModifyWrite, size: 3, cycles: 7 },
        _ => OpcodeInfo { operation: Operation::Rra, mode: AddressingMode::AbsoluteX, access_type: AccessType::ReadModifyWrite, size: 3, cycles: 7 },
    }
}

pub open spec fn opcode_row_8(code: u8) -> OpcodeInfo {
    match code % 16 {
        0 => OpcodeInfo { operation: Operation::FatNop, mode: AddressingMode::Immediate, access_type: AccessType::Read, size: 2, cycles: 2 },
        1 => OpcodeInfo { operation: Operation::Sta, mode: AddressingMode::IndirectX, access_type: AccessType::Write, size: 2, cycles: 6 },
        2 => OpcodeInfo { operation: Operation::FatNop, mode: AddressingMode::Immediate, access_type: AccessType::Read, size: 2, cycles: 2 },
        3 => OpcodeInfo { operation: Operation::Sax, mode: AddressingMode::IndirectX, access_type: AccessType::Write, size: 2, cycles: 6 },
        4 => OpcodeInfo { operation: Operation::Sty, mode: AddressingMode::ZeroPage, access_type: AccessType::Read, size: 2, cycles: 3 },
        5 => OpcodeInfo { operation: Operation::Sta, mode: AddressingMode::ZeroPage, access_type: AccessType::Write, size: 2, cycles: 3 },
        6 => OpcodeInfo { operation: Operation::Stx, mode: AddressingMode::ZeroPage, access_type: AccessType::Read, size: 2, cycles: 3 },
        7 => OpcodeInfo { operation: Operation::Sax, mode: AddressingMode::ZeroPage, access_type: AccessType::Write, size: 2, cycles: 3 },
        8 => OpcodeInfo { operation: Operation::Dey, mode: AddressingMode::Implied, access_type: AccessType::Register, size: 1, cycles: 2 },
        9 => OpcodeInfo { operation: Operation::FatNop, mode: AddressingMode::Immediate, access_type: AccessType::Read, size: 2, cycles: 2 },
        10 => OpcodeInfo { operation: Operation::Txa, mode: AddressingMode::Implied, access_type: AccessType::Register, size: 1, cycles: 2 },
        11 => OpcodeInfo { operation: Operation::Unstable, mode: AddressingMode::Implied, access_type: AccessType::Read, size: 1, cycles: 1 },
        12 => OpcodeInfo { operation: Operation::Sty, mode: AddressingMode::Absolute, access_type: AccessType::Read, size: 3, cycles: 4 },
        13 => OpcodeInfo { operation: Operation::Sta, mode: AddressingMode::Absolute, access_type: AccessType::Write, size: 3, cycles: 4 },
        14 => OpcodeInfo { operation: Operation::Stx, mode: AddressingMode::Absolute, access_type: AccessType::Read, size: 3, cycles: 4 },
        _ => OpcodeInfo { operation: Operation::Sax, mode: AddressingMode::Absolute, access_type: AccessType::Write, size: 3, cycles: 4 },
    }
}

pub open spec fn opcode_row_9(code: u8) -> OpcodeInfo {
    match code % 16 {
        0 => OpcodeInfo { operation: Operation::Bcc, mode: AddressingMode::Relative, access_type: AccessType::Read, size: 2, cycles: 2 },
        1 => OpcodeInfo { operation: Operation::Sta, mode: AddressingMode::IndirectY, access_type: AccessType::Write, size: 2, cycles: 6 },
        2 => OpcodeInfo { operation: Operation::Nop, mode: AddressingMode::Implied, access_type: AccessType::Read, size: 1, cycles: 11 },
        3 => OpcodeInfo { operation: Operation::Unstable, mode: AddressingMode::Implied, access_type: AccessType::Read, size: 1, cycles: 1 },
        4 => OpcodeInfo { operation: Operation::Sty, mode: AddressingMode::ZeroPageX, access_type: AccessType::Read, size: 2, cycles: 4 },
        5 => OpcodeInfo { operation: Operation::Sta, mode: AddressingMode::ZeroPageX, access_type: AccessType::Write, size: 2, cycles: 4 },
        6 => OpcodeInfo { operation: Operation::Stx, mode: AddressingMode::ZeroPageY, access_type: AccessType::Read, size: 2, cycles: 4 },
        7 => OpcodeInfo { operation: Operation::Sax, mode: AddressingMode::ZeroPageY, access_type: AccessType::Write, size: 2, cycles: 4 },
        8 => OpcodeInfo { operation: Operation::Tya, mode: AddressingMode::Implied, access_type: AccessType::Register, size: 1, cycles: 2 },
        9 => OpcodeInfo { operation: Operation::Sta, mode: AddressingMode::AbsoluteY, access_type: AccessType::Write, size: 3, cycles: 5 },
        10 => OpcodeInfo { operation: Operation::Txs, mode: AddressingMode::Implied, access_type: AccessType::Register, size: 1, cycles: 2 },
        11 => OpcodeInfo { operation: Operation::Unstable, mode: AddressingMode::Implied, access_type: AccessType::Read, size: 1, cycles: 1 },
        12 => OpcodeInfo { operation: Operation::Unstable, mode: AddressingMode::Implied, access_type: AccessType::Read, size: 1, cycles: 1 },
        13 => OpcodeInfo { operation: Operation::Sta, mode: AddressingMode::AbsoluteX, access_type: AccessType::Write, size: 3, cycles: 5 },
        14 => OpcodeInfo { operation: Operation::Unstable, mode: AddressingMode::Implied, access_type: AccessType::Read, size: 1, cycles: 1 },
        _ => OpcodeInfo { operation: Operation::Unstable, mode: AddressingMode::Implied, access_type: AccessType::Read, size: 1, cycles: 1 },
    }
}

pub open spec fn opcode_row_a(code: u8) -> OpcodeInfo {
    match code % 16 {
        0 => OpcodeInfo { operation: Operation::Ldy, mode: AddressingMode::Immediate, access_type: AccessType::Read, size: 2, cycles: 2 },
        1 => OpcodeInfo { operation: Operation::Lda, mode: AddressingMode::IndirectX, access_type: AccessType::Read, size: 2, cycles: 6 },
        2 => OpcodeInfo { operation: Operation::Ldx, mode: AddressingMode::Immediate, access_type: AccessType::Read, size: 2, cycles: 2 },
        3 => OpcodeInfo { operation: Operation::Lax, mode: AddressingMode::IndirectX, access_type: AccessType::Read, size: 2, cycles: 6 },
        4 => OpcodeInfo { operation: Operation::Ldy, mode: AddressingMode::ZeroPage, access_type: AccessType::Read, size: 2, cycles: 3 },
        5 => OpcodeInfo { operation: Operation::Lda, mode: AddressingMode::ZeroPage, access_type: AccessType::Read, size: 2, cycles: 3 },
        6 => OpcodeInfo { operation: Operation::Ldx, mode: AddressingMode::ZeroPage, access_type: AccessType::Read, size: 2, cycles: 3 },
        7 => OpcodeInfo { operation: Operation::Lax, mode: AddressingMode::ZeroPage, access_type: AccessType::Read, size: 2, cycles: 3 },
        8 => OpcodeInfo { operation: Operation::Tay, mode: AddressingMode::Implied, access_type: AccessType::Register, size: 1, cycles: 2 },
        9 => OpcodeInfo { operation: Operation::Lda, mode: AddressingMode::Immediate, access_type: AccessType::Read, size: 2, cycles: 2 },
        10 => OpcodeInfo { operation: Operation::Tax, mode: AddressingMode::Implied, access_type: AccessType::Register, size: 1, cycles: 2 },
        11 => OpcodeInfo { operation: Operation::Unstable, mode: AddressingMode::Implied, access_type: AccessType::Read, size: 1, cycles: 1 },
        12 => OpcodeInfo { operation: Operation::Ldy, mode: AddressingMode::Absolute, access_type: AccessType::Read, size: 3, cycles: 4 },
        13 => OpcodeInfo { operation: Operation::Lda, mode: AddressingMode::Absolute, access_type: AccessType::Read, size: 3, cycles: 4 },
        14 => OpcodeInfo { operation: Operation::Ldx, mode: AddressingMode::Absolute, access_type: AccessType::Read, size: 3, cycles: 4 },
        _ => OpcodeInfo { operation: Operation::Lax, mode: AddressingMode::Absolute, access_type: AccessType::Read, size: 3, cycles: 4 },
    }
}

pub open spec fn opcode_row_b(code: u8) -> OpcodeInfo {
    match code % 16 {
        0 => OpcodeInfo { operation: Operation::Bcs, mode: AddressingMode::Relative, access_type: AccessType::Read, size: 2, cycles: 2 },
        1 => OpcodeInfo { operation: Operation::Lda, mode: AddressingMode::IndirectY, access_type: AccessType::Read, size: 2, cycles: 5 },
        2 => OpcodeInfo { operation: Operation::Nop, mode: AddressingMode::Implied, access_type: AccessType::Read, size: 1, cycles: 11 },
        3 => OpcodeInfo { operation: Operation::Lax, mode: AddressingMode::IndirectY, access_type: AccessType::Read, size: 2, cycles: 5 },
        4 => OpcodeInfo { operation: Operation::Ldy, mode: AddressingMode::ZeroPageX, access_type: AccessType::Read, size: 2, cycles: 4 },
        5 => OpcodeInfo { operation: Operation::Lda, mode: AddressingMode::ZeroPageX, access_type: AccessType::Read, size: 2, cycles: 4 },
        6 => OpcodeInfo { operation: Operation::Ldx, mode: AddressingMode::ZeroPageY, access_type: AccessType::Read, size: 2, cycles: 4 },
        7 => OpcodeInfo { operation: Operation::Lax, mode: AddressingMode::ZeroPageY, access_type: AccessType::Read, size: 2, cycles: 4 },
        8 => OpcodeInfo { operation: Operation::Clv, mode: AddressingMode::Implied, access_type: AccessType::Register, size: 1, cycles: 2 },
        9 => OpcodeInfo { operation: Operation::Lda, mode: AddressingMode::AbsoluteY, access_type: AccessType::Read, size: 3, cycles: 4 },
        10 => OpcodeInfo { operation: Operation::Tsx, mode: AddressingMode::Implied, access_type: AccessType::Register, size: 1, cycles: 2 },
        11 => OpcodeInfo { operation: Operation::Las, mode: AddressingMode::AbsoluteY, access_type: AccessType::Read, size: 3, cycles: 4 },
        12 => OpcodeInfo { operation: Operation::Ldy, mode: AddressingMode::AbsoluteX, access_type: AccessType::Read, size: 3, cycles: 4 },
        13 => OpcodeInfo { operation: Operation::Lda, mode: AddressingMode::AbsoluteX, access_type: AccessType::Read, size: 3, cycles: 4 },
        14 => OpcodeInfo { operation: Operation::Ldx, mode: AddressingMode::AbsoluteY, access_type: AccessType::Read, size: 3, cycles: 4 },
        _ => OpcodeInfo { operation: Operation::Lax, mode: AddressingMode::AbsoluteY, access_type: AccessType::Read, size: 3, cycles: 4 },
    }
}

pub open spec fn opcode_row_c(code: u8) -> OpcodeInfo {
    match code % 16 {
        0 => OpcodeInfo { operation: Operation::Cpy, mode: AddressingMode::Immediate, access_type: AccessType::Read, size: 2, cycles: 2 },
        1 => OpcodeInfo { operation: Operation::Cmp, mode: AddressingMode::IndirectX, access_type: AccessType::Read, size: 2, cycles: 6 },
        2 => OpcodeInfo { operation: Operation::FatNop, mode: AddressingMode::Immediate, access_type: AccessType::Read, size: 2, cycles: 2 },
        3 => OpcodeInfo { operation: Operation::Dcp, mode: AddressingMode::IndirectX, access_type: AccessType::ReadModifyWrite, size: 2, cycles: 8 },
        4 => OpcodeInfo { operation: Operation::Cpy, mode: AddressingMode::ZeroPage, access_type: AccessType::Read, size: 2, cycles: 3 },
        5 => OpcodeInfo { operation: Operation::Cmp, mode: AddressingMode::ZeroPage, access_type: AccessType::Read, size: 2, cycles: 3 },
        6 => OpcodeInfo { operation: Operation::Dec, mode: AddressingMode::ZeroPage, access_type: AccessType::ReadModifyWrite, size: 2, cycles: 5 },
        7 => OpcodeInfo { operation: Operation::Dcp, mode: AddressingMode::ZeroPage, access_type: AccessType::ReadModifyWrite, size: 2, cycles: 5 },
        8 => OpcodeInfo { operation: Operation::Iny, mode: AddressingMode::Implied, access_type: AccessType::Register, size: 1, cycles: 2 },
        9 => OpcodeInfo { operation: Operation::Cmp, mode: AddressingMode::Immediate, access_type: AccessType::Read, size: 2, cycles: 2 },
        10 => OpcodeInfo { operation: Operation::Dex, mode: AddressingMode::Implied, access_type: AccessType::Register, size: 1, cycles: 2 },
        11 => OpcodeInfo { operation: Operation::Sbx, mode: AddressingMode::Immediate, access_type: AccessType::Read, size: 2, cycles: 2 },
        12 => OpcodeInfo { operation: Operation::Cpy, mode: AddressingMode::Absolute, access_type: AccessType::Read, size: 3, cycles: 4 },
        13 => OpcodeInfo { operation: Operation::Cmp, mode: AddressingMode::Absolute, access_type: AccessType::Read, size: 3, cycles: 4 },
        14 => OpcodeInfo { operation: Operation::Dec, mode: AddressingMode::Absolute, access_type: AccessType::ReadModifyWrite, size: 3, cycles: 6 },
        _ => OpcodeInfo { operation: Operation::Dcp, mode: AddressingMode::Absolute, access_type: AccessType::ReadModifyWrite, size: 3, cycles: 6 },
    }
}

pub open spec fn opcode_row_d(code: u8) -> OpcodeInfo {
    match code % 16 {
        0 => OpcodeInfo { operation: Operation::Bne, mode: AddressingMode::Relative, access_type: AccessType::Read, size: 2, cycles: 2 },
        1 => OpcodeInfo { operation: Operation::Cmp, mode: AddressingMode::IndirectY, access_type: AccessType::Read, size: 2, cycles: 5 },
        2 => OpcodeInfo { operation: Operation::Nop, mode: AddressingMode::Implied, access_type: AccessType::Read, size: 1, cycles: 11 },
        3 => OpcodeInfo { operation: Operation::Dcp, mode: AddressingMode::IndirectY, access_type: AccessType::ReadModifyWrite, size: 2, cycles: 8 },
        4 => OpcodeInfo { operation: Operation::FatNop, mode: AddressingMode::ZeroPageX, access_type: AccessType::Read, size: 2, cycles: 4 },
        5 => OpcodeInfo { operation: Operation::Cmp, mode: AddressingMode::ZeroPageX, access_type: AccessType::Read, size: 2, cycles: 4 },
        6 => OpcodeInfo { operation: Operation::Dec, mode: AddressingMode::ZeroPageX, access_type: AccessType::ReadModifyWrite, size: 2, cycles: 6 },
        7 => OpcodeInfo { operation: Operation::Dcp, mode: AddressingMode::ZeroPageX, access_type: AccessType::ReadModifyWrite, size: 2, cycles: 6 },
        8 => OpcodeInfo { operation: Operation::Cld, mode: AddressingMode::Implied, access_type: AccessType::Register, size: 1, cycles: 2 },
        9 => OpcodeInfo { operation: Operation::Cmp, mode: AddressingMode::AbsoluteY, access_type: AccessType::Read, size: 3, cycles: 4 },
        10 => OpcodeInfo { operation: Operation::Nop, mode: AddressingMode::Implied, access_type: AccessType::Read, size: 1, cycles: 2 },
        11 => OpcodeInfo { operation: Operation::Dcp, mode: AddressingMode::AbsoluteY, access_type: AccessType::ReadModifyWrite, size: 3, cycles: 7 },
        12 => OpcodeInfo { operation: Operation::FatNop, mode: AddressingMode::AbsoluteX, access_type: AccessType::Read, size: 3, cycles: 4 },
        13 => OpcodeInfo { operation: Operation::Cmp, mode: AddressingMode::AbsoluteX, access_type: AccessType::Read, size: 3, cycles: 4 },
        14 => OpcodeInfo { operation: Operation::Dec, mode: AddressingMode::AbsoluteX, access_type: AccessType::ReadModifyWrite, size: 3, cycles: 7 },
        _ => OpcodeInfo { operation: Operation::Dcp, mode: AddressingMode::AbsoluteX, access_type: AccessType::ReadModifyWrite, size: 3, cycles: 7 },
    }
}

pub open spec fn opcode_row_e(code: u8) -> OpcodeInfo {
    match code % 16 {
        0 => OpcodeInfo { operation: Operation::Cpx, mode: AddressingMode::Immediate, access_type: AccessType::Read, size: 2, cycles: 2 },
        1 => OpcodeInfo { operation: Operation::Sbc, mode: AddressingMode::IndirectX, access_type: AccessType::Read, size: 2, cycles: 6 },
        2 => OpcodeInfo { operation: Operation::FatNop, mode: AddressingMode::Immediate, access_type: AccessType::Read, size: 2, cycles: 2 },
        3 => OpcodeInfo { operation: Operation::Isc, mode: AddressingMode::IndirectX, access_type: AccessType::ReadModifyWrite, size: 2, cycles: 8 },
        4 => OpcodeInfo { operation: Operation::Cpx, mode: AddressingMode::ZeroPage, access_type: AccessType::Read, size: 2, cycles: 3 },
        5 => OpcodeInfo { operation: Operation::Sbc, mode: AddressingMode::ZeroPage, access_type: AccessType::Read, size: 2, cycles: 3 },
        6 => OpcodeInfo { operation: Operation::Inc, mode: AddressingMode::ZeroPage, access_type: AccessType::ReadModifyWrite, size: 2, cycles: 5 },
        7 => OpcodeInfo { operation: Operation::Isc, mode: AddressingMode::ZeroPage, access_type: AccessType::ReadModifyWrite, size: 2, cycles: 5 },
        8 => OpcodeInfo { operation: Operation::Inx, mode: AddressingMode::Implied, access_type: AccessType::Register, size: 1, cycles: 2 },
        9 => OpcodeInfo { operation: Operation::Sbc, mode: AddressingMode::Immediate, access_type: AccessType::Read, size: 2, cycles: 2 },
        10 => OpcodeInfo { operation: Operation::Nop, mode: AddressingMode::Implied, access_type: AccessType::Implied, size: 1, cycles: 2 },
        11 => OpcodeInfo { operation: Operation::Usbc, mode: AddressingMode::Immediate, access_type: AccessType::Read, size: 2, cycles: 2 },
        12 => OpcodeInfo { operation: Operation::Cpx, mode: AddressingMode::Absolute, access_type: AccessType::Read, size: 3, cycles: 4 },
        13 => OpcodeInfo { operation: Operation::Sbc, mode: AddressingMode::Absolute, access_type: AccessType::Read, size: 3, cycles: 4 },
        14 => OpcodeInfo { operation: Operation::Inc, mode: AddressingMode::Absolute, access_type: AccessType::ReadModifyWrite, size: 3, cycles: 6 },
        _ => OpcodeInfo { operation: Operation::Isc, mode: AddressingMode::Absolute, access_type: AccessType::ReadModifyWrite, size: 3, cycles: 6 },
    }
}

pub open spec fn opcode_row_f(code: u8) -> OpcodeInfo {
    match code % 16 {
        0 => OpcodeInfo { operation: Operation::Beq, mode: AddressingMode::Relative, access_type: AccessType::Read, size: 2, cycles: 2 },
        1 => OpcodeInfo { operation: Operation::Sbc, mode: AddressingMode::IndirectY, access_type: AccessType::Read, size: 2, cycles: 5 },
        2 => OpcodeInfo { operation: Operation::Nop, mode: AddressingMode::Implied, access_type: AccessType::Read, size: 1, cycles: 11 },
        3 => OpcodeInfo { operation: Operation::Isc, mode: AddressingMode::IndirectY, access_type: AccessType::ReadModifyWrite, size: 2, cycles: 8 },
        4 => OpcodeInfo { operation: Operation::FatNop, mode: AddressingMode::ZeroPageX, access_type: AccessType::Read, size: 2, cycles: 4 },
        5 => OpcodeInfo { operation: Operation::Sbc, mode: AddressingMode::ZeroPageX, access_type: AccessType::Read, size: 2, cycles: 4 },
        6 => OpcodeInfo { operation: Operation::Inc, mode: AddressingMode::ZeroPageX, access_type: AccessType::ReadModifyWrite, size: 2, cycles: 6 },
        7 => OpcodeInfo { operation: Operation::Isc, mode: AddressingMode::ZeroPageX, access_type: AccessType::ReadModifyWrite, size: 2, cycles: 6 },
        8 => OpcodeInfo { operation: Operation::Sed, mode: AddressingMode::Implied, access_type: AccessType::Register, size: 1, cycles: 2 },
        9 => OpcodeInfo { operation: Operation::Sbc, mode: AddressingMode::AbsoluteY, access_type: AccessType::Read, size: 3, cycles: 4 },
        10 => OpcodeInfo { operation: Operation::Nop, mode: AddressingMode::Implied, access_type: AccessType::Read, size: 1, cycles: 2 },
        11 => OpcodeInfo { operation: Operation::Isc, mode: AddressingMode::AbsoluteY, access_type: AccessType::ReadModifyWrite, size: 3, cycles: 7 },
        12 => OpcodeInfo { operation: Operation::FatNop, mode: AddressingMode::AbsoluteX, access_type: AccessType::Read, size: 3, cycles: 4 },
        13 => OpcodeInfo { operation: Operation::Sbc, mode: AddressingMode::AbsoluteX, access_type: AccessType::Read, size: 3, cycles: 4 },
        14 => OpcodeInfo { operation: Operation::Inc, mode: AddressingMode::AbsoluteX, access_type: AccessType::ReadModifyWrite, size: 3, cycles: 7 },
        _ => OpcodeInfo { operation: Operation::Isc, mode: AddressingMode::AbsoluteX, access_type: AccessType::ReadModifyWrite, size: 3, cycles: 7 },
    }
}

/// Decodes `code`.
pub fn lookup(code: u8) -> (op: Opcode)
    ensures
        op.code == code,
        op.info() == opcode_table(code),
{
    let row = code / 16;
    if row == 0 {
        lookup_row_0(code)
    } else if row == 1 {
        lookup_row_1(code)
    } else if row == 2 {
        lookup_row_2(code)
    } else if row == 3 {
        lookup_row_3(code)
    } else if row == 4 {
        lookup_row_4(code)
    } else if row == 5 {
        lookup_row_5(code)
    } else if row == 6 {
        lookup_row_6(code)
    } else if row == 7 {
        lookup_row_7(code)
    } else if row == 8 {
        lookup_row_8(code)
    } else if row == 9 {
        lookup_row_9(code)
    } else if row == 10 {
        lookup_row_a(code)
    } else if row == 11 {
        lookup_row_b(code)
    } else if row == 12 {
        lookup_row_c(code)
    } else if row == 13 {
        lookup_row_d(code)
    } else if row == 14 {
        lookup_row_e(code)
    } else {
        lookup_row_f(code)
    }
}

fn lookup_row_0(code: u8) -> (op: Opcode)
    requires
        code / 16 == 0,
    ensures
        op.code == code,
        op.info() == opcode_row_0(code),
{
    match code % 16 {
        0 => Opcode::new(0x00, "BRK", 2, 7, AddressingMode::Implied, AccessType::Read, Operation::Brk),
        1 => Opcode::new(0x01, "ORA", 2, 6, AddressingMode::IndirectX, AccessType::Read, Operation::Ora),
        2 => Opcode::new(0x02, "*KIL/JAM", 1, 11, AddressingMode::Implied, AccessType::Implied, Operation::Jam),
        3 => Opcode::new(0x03, "*SLO", 2, 8, AddressingMode::IndirectX, AccessType::ReadModifyWrite, Operation::Slo),
        4 => Opcode::new(0x04, "*NOP", 2, 3, AddressingMode::ZeroPage, AccessType::Read, Operation::FatNop),
        5 => Opcode::new(0x05, "ORA", 2, 3, AddressingMode::ZeroPage, AccessType::Read, Operation::Ora),
        6 => Opcode::new(0x06, "ASL", 2, 5, AddressingMode::ZeroPage, AccessType::ReadModifyWrite, Operation::Asl),
        7 => Opcode::new(0x07, "*SLO", 2, 5, AddressingMode::ZeroPage, AccessType::ReadModifyWrite, Operation::Slo),
        8 => Opcode::new(0x08, "PHP", 1, 3, AddressingMode::Implied, AccessType::Write, Operation::Php),
        9 => Opcode::new(0x09, "ORA", 2, 2, AddressingMode::Immediate, AccessType::Read, Operation::Ora),
        10 => Opcode::new(0x0A, "ASL", 1, 2, AddressingMode::Immediate, AccessType::Register, Operation::AslAcc),
        11 => Opcode::new(0x0B, "*ANC", 2, 2, AddressingMode::Immediate, AccessType::Read, Operation::Anc),
        12 => Opcode::new(0x0C, "*NOP", 3, 4, AddressingMode::Absolute, AccessType::Read, Operation::FatNop),
        13 => Opcode::new(0x0D, "ORA", 3, 4, AddressingMode::Absolute, AccessType::Read, Operation::Ora),
        14 => Opcode::new(0x0E, "ASL", 3, 6, AddressingMode::Absolute, AccessType::ReadModifyWrite, Operation::Asl),
        _ => Opcode::new(0x0F, "*SLO", 3, 6, AddressingMode::Absolute, AccessType::ReadModifyWrite, Operation::Slo),
    }
}

fn lookup_row_1(code: u8) -> (op: Opcode)
    requires
        code / 16 == 1,
    ensures
        op.code == code,
        op.info() == opcode_row_1(code),
{
    match code % 16 {
        0 => Opcode::new(0x10, "BPL", 2, 2, AddressingMode::Relative, AccessType::Read, Operation::Bpl),
        1 => Opcode::new(0x11, "ORA", 2, 5, AddressingMode::IndirectY, AccessType::Read, Operation::Ora),
        2 => Opcode::new(0x12, "*NOP", 1, 11, AddressingMode::Implied, AccessType::Read, Operation::Nop),
        3 => Opcode::new(0x13, "*SLO", 2, 8, AddressingMode::IndirectY, AccessType::ReadModifyWrite, Operation::Slo),
        4 => Opcode::new(0x14, "*NOP", 2, 4, AddressingMode::ZeroPageX, AccessType::Read, Operation::FatNop),
        5 => Opcode::new(0x15, "ORA", 2, 4, AddressingMode::ZeroPageX, AccessType::Read, Operation::Ora),
        6 => Opcode::new(0x16, "ASL", 2, 6, AddressingMode::ZeroPageX, AccessType::ReadModifyWrite, Operation::Asl),
        7 => Opcode::new(0x17, "*SLO", 2, 6, AddressingMode::ZeroPageX, AccessType::ReadModifyWrite, Operation::Slo),
        8 => Opcode::new(0x18, "CLC", 1, 2, AddressingMode::Implied, AccessType::Register, Operation::Clc),
        9 => Opcode::new(0x19, "ORA", 3, 4, AddressingMode::AbsoluteY, AccessType::Read, Operation::Ora),
        10 => Opcode::new(0x1A, "*NOP", 1, 2, AddressingMode::Implied, AccessType::Read, Operation::Nop),
        11 => Opcode::new(0x1B, "*SLO", 3, 7, AddressingMode::AbsoluteY, AccessType::ReadModifyWrite, Operation::Slo),
        12 => Opcode::new(0x1C, "*NOP", 3, 4, AddressingMode::AbsoluteX, AccessType::Read, Operation::FatNop),
        13 => Opcode::new(0x1D, "ORA", 3, 4, AddressingMode::AbsoluteX, AccessType::Read, Operation::Ora),
        14 => Opcode::new(0x1E, "ASL", 3, 7, AddressingMode::AbsoluteX, AccessType::ReadModifyWrite, Operation::Asl),
        _ => Opcode::new(0x1F, "*SLO", 3, 7, AddressingMode::AbsoluteX, AccessType::ReadModifyWrite, Operation::Slo),
    }
}

fn lookup_row_2(code: u8) -> (op: Opcode)
    requires
        code / 16 == 2,
    ensures
        op.code == code,
        op.info() == opcode_row_2(code),
{
    match code % 16 {
        0 => Opcode::new(0x20, "JSR", 3, 6, AddressingMode::Absolute, AccessType::Read, Operation::Jsr),
        1 => Opcode::new(0x21, "AND", 2, 6, AddressingMode::IndirectX, AccessType::Read, Operation::And),
        2 => Opcode::new(0x22, "*NOP", 1, 11, AddressingMode::Implied, AccessType::Read, Operation::Nop),
        3 => Opcode::new(0x23, "*RLA", 2, 8, AddressingMode::IndirectX, AccessType::ReadModifyWrite, Operation::Rla),
        4 => Opcode::new(0x24, "BIT", 2, 3, AddressingMode::ZeroPage, AccessType::Read, Operation::Bit),
        5 => Opcode::new(0x25, "AND", 2, 3, AddressingMode::ZeroPage, AccessType::Read, Operation::And),
        6 => Opcode::new(0x26, "ROL", 2, 5, AddressingMode::ZeroPage, AccessType::ReadModifyWrite, Operation::Rol),
        7 => Opcode::new(0x27, "*RLA", 2, 5, AddressingMode::ZeroPage, AccessType::ReadModifyWrite, Operation::Rla),
        8 => Opcode::new(0x28, "PLP", 1, 4, AddressingMode::Implied, AccessType::Read, Operation::Plp),
        9 => Opcode::new(0x29, "AND", 2, 2, AddressingMode::Immediate, AccessType::Read, Operation::And),
        10 => Opcode::new(0x2A, "ROL", 1, 2, AddressingMode::Immediate, AccessType::Register, Operation::RolAcc),
        11 => Opcode::new(0x2B, "*ANC", 2, 2, AddressingMode::Immediate, AccessType::Read, Operation::Anc),
        12 => Opcode::new(0x2C, "BIT", 3, 4, AddressingMode::Absolute, AccessType::Read, Operation::Bit),
        13 => Opcode::new(0x2D, "AND", 3, 4, AddressingMode::Absolute, AccessType::Read, Operation::And),
        14 => Opcode::new(0x2E, "ROL", 3, 6, AddressingMode::Absolute, AccessType::ReadModifyWrite, Operation::Rol),
        _ => Opcode::new(0x2F, "*RLA", 3, 6, AddressingMode::Absolute, AccessType::ReadModifyWrite, Operation::Rla),
    }
}

fn lookup_row_3(code: u8) -> (op: Opcode)
    requires
        code / 16 == 3,
    ensures
        op.code == code,
        op.info() == opcode_row_3(code),
{
    match code % 16 {
        0 => Opcode::new(0x30, "BMI", 2, 2, AddressingMode::Relative, AccessType::Read, Operation::Bmi),
        1 => Opcode::new(0x31, "AND", 2, 5, AddressingMode::IndirectY, AccessType::Read, Operation::And),
        2 => Opcode::new(0x32, "*NOP", 1, 11, AddressingMode::Implied, AccessType::Read, Operation::Nop),
        3 => Opcode::new(0x33, "*RLA", 2, 8, AddressingMode::IndirectY, AccessType::ReadModifyWrite, Operation::Rla),
        4 => Opcode::new(0x34, "*NOP", 2, 4, AddressingMode::ZeroPageX, AccessType::Read, Operation::FatNop),
        5 => Opcode::new(0x35, "AND", 2, 4, AddressingMode::ZeroPageX, AccessType::Read, Operation::And),
        6 => Opcode::new(0x36, "ROL", 2, 6, AddressingMode::ZeroPageX, AccessType::ReadModifyWrite, Operation::Rol),
        7 => Opcode::new(0x37, "*RLA", 2, 6, AddressingMode::ZeroPageX, AccessType::ReadModifyWrite, Operation::Rla),
        8 => Opcode::new(0x38, "SEC", 1, 2, AddressingMode::Implied, AccessType::Register, Operation::Sec),
        9 => Opcode::new(0x39, "AND", 3, 4, AddressingMode::AbsoluteY, AccessType::Read, Operation::And),
        10 => Opcode::new(0x3A, "*NOP", 1, 2, AddressingMode::Implied, AccessType::Read, Operation::Nop),
        11 => Opcode::new(0x3B, "*RLA", 3, 7, AddressingMode::AbsoluteY, AccessType::ReadModifyWrite, Operation::Rla),
        12 => Opcode::new(0x3C, "*NOP", 3, 4, AddressingMode::AbsoluteX, AccessType::Read, Operation::FatNop),
        13 => Opcode::new(0x3D, "AND", 3, 4, AddressingMode::AbsoluteX, AccessType::Read, Operation::And),
        14 => Opcode::new(0x3E, "ROL", 3, 7, AddressingMode::AbsoluteX, AccessType::ReadModifyWrite, Operation::Rol),
        _ => Opcode::new(0x3F, "*RLA", 3, 7, AddressingMode::AbsoluteX, AccessType::ReadModifyWrite, Operation::Rla),
    }
}

fn lookup_row_4(code: u8) -> (op: Opcode)
    requires
        code / 16 == 4,
    ensures
        op.code == code,
        op.info() == opcode_row_4(code),
{
    match code % 16 {
        0 => Opcode::new(0x40, "RTI", 1, 6, AddressingMode::Implied, AccessType::Read, Operation::Rti),
        1 => Opcode::new(0x41, "EOR", 2, 6, AddressingMode::IndirectX, AccessType::Read, Operation::Eor),
        2 => Opcode::new(0x42, "*NOP", 1, 11, AddressingMode::Implied, AccessType::Read, Operation::Nop),
        3 => Opcode::new(0x43, "*SRE", 2, 8, AddressingMode::IndirectX, AccessType::ReadModifyWrite, Operation::Sre),
        4 => Opcode::new(0x44, "*NOP", 2, 3, AddressingMode::ZeroPage, AccessType::Read, Operation::FatNop),
        5 => Opcode::new(0x45, "EOR", 2, 3, AddressingMode::ZeroPage, AccessType::Read, Operation::Eor),
        6 => Opcode::new(0x46, "LSR", 2, 5, AddressingMode::ZeroPage, AccessType::ReadModifyWrite, Operation::Lsr),
        7 => Opcode::new(0x47, "*SRE", 2, 5, AddressingMode::ZeroPage, AccessType::ReadModifyWrite, Operation::Sre),
        8 => Opcode::new(0x48, "PHA", 1, 3, AddressingMode::Implied, AccessType::Write, Operation::Pha),
        9 => Opcode::new(0x49, "EOR", 2, 2, AddressingMode::Immediate, AccessType::Read, Operation::Eor),
        10 => Opcode::new(0x4A, "LSR", 1, 2, AddressingMode::Immediate, AccessType::Register, Operation::LsrAcc),
        11 => Opcode::new(0x4B, "*ALR", 2, 2, AddressingMode::Immediate, AccessType::Read, Operation::Alr),
        12 => Opcode::new(0x4C, "JMP", 3, 3, AddressingMode::Absolute, AccessType::Read, Operation::Jmp),
        13 => Opcode::new(0x4D, "EOR", 3, 4, AddressingMode::Absolute, AccessType::Read, Operation::Eor),
        14 => Opcode::new(0x4E, "LSR", 3, 6, AddressingMode::Absolute, AccessType::ReadModifyWrite, Operation::Lsr),
        _ => Opcode::new(0x4F, "*SRE", 3, 6, AddressingMode::Absolute, AccessType::ReadModifyWrite, Operation::Sre),
    }
}

fn lookup_row_5(code: u8) -> (op: Opcode)
    requires
        code / 16 == 5,
    ensures
        op.code == code,
        op.info() == opcode_row_5(code),
{
    match code % 16 {
        0 => Opcode::new(0x50, "BVC", 2, 2, AddressingMode::Relative, AccessType::Read, Operation::Bvc),
        1 => Opcode::new(0x51, "EOR", 2, 5, AddressingMode::IndirectY, AccessType::Read, Operation::Eor),
        2 => Opcode::new(0x52, "*NOP", 1, 11, AddressingMode::Implied, AccessType::Read, Operation::Nop),
        3 => Opcode::new(0x53, "*SRE", 2, 8, AddressingMode::IndirectY, AccessType::ReadModifyWrite, Operation::Sre),
        4 => Opcode::new(0x54, "*NOP", 2, 4, AddressingMode::ZeroPageX, AccessType::Read, Operation::FatNop),
        5 => Opcode::new(0x55, "EOR", 2, 4, AddressingMode::ZeroPageX, AccessType::Read, Operation::Eor),
        6 => Opcode::new(0x56, "LSR", 2, 6, AddressingMode::ZeroPageX, AccessType::ReadModifyWrite, Operation::Lsr),
        7 => Opcode::new(0x57, "*SRE", 2, 6, AddressingMode::ZeroPageX, AccessType::ReadModifyWrite, Operation::Sre),
        8 => Opcode::new(0x58, "CLI", 1, 2, AddressingMode::Implied, AccessType::Register, Operation::Cli),
        9 => Opcode::new(0x59, "EOR", 3, 4, AddressingMode::AbsoluteY, AccessType::Read, Operation::Eor),
        10 => Opcode::new(0x5A, "*NOP", 1, 2, AddressingMode::Implied, AccessType::Read, Operation::Nop),
        11 => Opcode::new(0x5B, "*SRE", 3, 7, AddressingMode::AbsoluteY, AccessType::ReadModifyWrite, Operation::Sre),
        12 => Opcode::new(0x5C, "*NOP", 3, 4, AddressingMode::AbsoluteX, AccessType::Read, Operation::FatNop),
        13 => Opcode::new(0x5D, "EOR", 3, 4, AddressingMode::AbsoluteX, AccessType::Read, Operation::Eor),
        14 => Opcode::new(0x5E, "LSR", 3, 7, AddressingMode::AbsoluteX, AccessType::ReadModifyWrite, Operation::Lsr),
        _ => Opcode::new(0x5F, "*SRE", 3, 7, AddressingMode::AbsoluteX, AccessType::ReadModifyWrite, Operation::Sre),
    }
}

fn lookup_row_6(code: u8) -> (op: Opcode)
    requires
        code / 16 == 6,
    ensures
        op.code == code,
        op.info() == opcode_row_6(code),
{
    match code % 16 {
        0 => Opcode::new(0x60, "RTS", 1, 6, AddressingMode::Implied, AccessType::Read, Operation::Rts),
        1 => Opcode::new(0x61, "ADC", 2, 6, AddressingMode::IndirectX, AccessType::Read, Operation::Adc),
        2 => Opcode::new(0x62, "*NOP", 1, 11, AddressingMode::Implied, AccessType::Read, Operation::Nop),
        3 => Opcode::new(0x63, "*RRA", 2, 8, AddressingMode::IndirectX, AccessType::ReadModifyWrite, Operation::Rra),
        4 => Opcode::new(0x64, "*NOP", 2, 3, AddressingMode::ZeroPage, AccessType::Read, Operation::FatNop),
        5 => Opcode::new(0x65, "ADC", 2, 3, AddressingMode::ZeroPage, AccessType::Read, Operation::Adc),
        6 => Opcode::new(0x66, "ROR", 2, 5, AddressingMode::ZeroPage, AccessType::ReadModifyWrite, Operation::Ror),
        7 => Opcode::new(0x67, "*RRA", 2, 5, AddressingMode::ZeroPage, AccessType::ReadModifyWrite, Operation::Rra),
        8 => Opcode::new(0x68, "PLA", 1, 4, AddressingMode::Implied, AccessType::Read, Operation::Pla),
        9 => Opcode::new(0x69, "ADC", 2, 2, AddressingMode::Immediate, AccessType::Read, Operation::Adc),
        10 => Opcode::new(0x6A, "ROR", 1, 2, AddressingMode::Immediate, AccessType::Register, Operation::RorAcc),
        11 => Opcode::new(0x6B, "*ARR", 2, 2, AddressingMode::Immediate, AccessType::Read, Operation::Arr),
        12 => Opcode::new(0x6C, "JMP", 3, 5, AddressingMode::Indirect, AccessType::Read, Operation::Jmp),
        13 => Opcode::new(0x6D, "ADC", 3, 4, AddressingMode::Absolute, AccessType::Read, Operation::Adc),
        14 => Opcode::new(0x6E, "ROR", 3, 6, AddressingMode::Absolute, AccessType::ReadModifyWrite, Operation::Ror),
        _ => Opcode::new(0x6F, "*RRA", 3, 6, AddressingMode::Absolute, AccessType::ReadModifyWrite, Operation::Rra),
    }
}

fn lookup_row_7(code: u8) -> (op: Opcode)
    requires
        code / 16 == 7,
    ensures
        op.code == code,
        op.info() == opcode_row_7(code),
{
    match code % 16 {
        0 => Opcode::new(0x70, "BVS", 2, 2, AddressingMode::Relative, AccessType::Read, Operation::Bvs),
        1 => Opcode::new(0x71, "ADC", 2, 5, AddressingMode::IndirectY, AccessType::Read, Operation::Adc),
        2 => Opcode::new(0x72, "*NOP", 1, 11, AddressingMode::Implied, AccessType::Read, Operation::Nop),
        3 => Opcode::new(0x73, "*RRA", 2, 8, AddressingMode::IndirectY, AccessType::ReadModifyWrite, Operation::Rra),
        4 => Opcode::new(0x74, "*NOP", 2, 4, AddressingMode::ZeroPageX, AccessType::Read, Operation::FatNop),
        5 => Opcode::new(0x75, "ADC", 2, 4, AddressingMode::ZeroPageX, AccessType::Read, Operation::Adc),
        6 => Opcode::new(0x76, "ROR", 2, 6, AddressingMode::ZeroPageX, AccessType::ReadModifyWrite, Operation::Ror),
        7 => Opcode::new(0x77, "*RRA", 2, 6, AddressingMode::ZeroPageX, AccessType::ReadModifyWrite, Operation::Rra),
        8 => Opcode::new(0x78, "SEI", 1, 2, AddressingMode::Implied, AccessType::Register, Operation::Sei),
        9 => Opcode::new(0x79, "ADC", 3, 4, AddressingMode::AbsoluteY, AccessType::Read, Operation::Adc),
        10 => Opcode::new(0x7A, "*NOP", 1, 2, AddressingMode::Implied, AccessType::Read, Operation::Nop),
        11 => Opcode::new(0x7B, "*RRA", 3, 7, AddressingMode::AbsoluteY, AccessType::ReadModifyWrite, Operation::Rra),
        12 => Opcode::new(0x7C, "*NOP", 3, 4, AddressingMode::AbsoluteX, AccessType::Read, Operation::FatNop),
        13 => Opcode::new(0x7D, "ADC", 3, 4, AddressingMode::AbsoluteX, AccessType::Read, Operation::Adc),
        14 => Opcode::new(0x7E, "ROR", 3, 7, AddressingMode::AbsoluteX, AccessType::ReadModifyWrite, Operation::Ror),
        _ => Opcode::new(0x7F, "*RRA", 3, 7, AddressingMode::AbsoluteX, AccessType::ReadModifyWrite, Operation::Rra),
    }
}

fn lookup_row_8(code: u8) -> (op: Opcode)
    requires
        code / 16 == 8,
    ensures
        op.code == code,
        op.info() == opcode_row_8(code),
{
    match code % 16 {
        0 => Opcode::new(0x80, "*NOP", 2, 2, AddressingMode::Immediate, AccessType::Read, Operation::FatNop),
        1 => Opcode::new(0x81, "STA", 2, 6, AddressingMode::IndirectX, AccessType::Write, Operation::Sta),
        2 => Opcode::new(0x82, "*NOP", 2, 2, AddressingMode::Immediate, AccessType::Read, Operation::FatNop),
        3 => Opcode::new(0x83, "*SAX", 2, 6, AddressingMode::IndirectX, AccessType::Write, Operation::Sax),
        4 => Opcode::new(0x84, "STY", 2, 3, AddressingMode::ZeroPage, AccessType::Read, Operation::Sty),
        5 => Opcode::new(0x85, "STA", 2, 3, AddressingMode::ZeroPage, AccessType::Write, Operation::Sta),
        6 => Opcode::new(0x86, "STX", 2, 3, AddressingMode::ZeroPage, AccessType::Read, Operation::Stx),
        7 => Opcode::new(0x87, "*SAX", 2, 3, AddressingMode::ZeroPage, AccessType::Write, Operation::Sax),
        8 => Opcode::new(0x88, "DEY", 1, 2, AddressingMode::Implied, AccessType::Register, Operation::Dey),
        9 => Opcode::new(0x89, "*NOP", 2, 2, AddressingMode::Immediate, AccessType::Read, Operation::FatNop),
        10 => Opcode::new(0x8A, "TXA", 1, 2, AddressingMode::Implied, AccessType::Register, Operation::Txa),
        11 => Opcode::new(0x8B, "*UNSTABLE", 1, 1, AddressingMode::Implied, AccessType::Read, Operation::Unstable),
        12 => Opcode::new(0x8C, "STY", 3, 4, AddressingMode::Absolute, AccessType::Read, Operation::Sty),
        13 => Opcode::new(0x8D, "STA", 3, 4, AddressingMode::Absolute, AccessType::Write, Operation::Sta),
        14 => Opcode::new(0x8E, "STX", 3, 4, AddressingMode::Absolute, AccessType::Read, Operation::Stx),
        _ => Opcode::new(0x8F, "*SAX", 3, 4, AddressingMode::Absolute, AccessType::Write, Operation::Sax),
    }
}

fn lookup_row_9(code: u8) -> (op: Opcode)
    requires
        code / 16 == 9,
    ensures
        op.code == code,
        op.info() == opcode_row_9(code),
{
    match code % 16 {
        0 => Opcode::new(0x90, "BCC", 2, 2, AddressingMode::Relative, AccessType::Read, Operation::Bcc),
        1 => Opcode::new(0x91, "STA", 2, 6, AddressingMode::IndirectY, AccessType::Write, Operation::Sta),
        2 => Opcode::new(0x92, "*NOP", 1, 11, AddressingMode::Implied, AccessType::Read, Operation::Nop),
        3 => Opcode::new(0x93, "*UNSTABLE", 1, 1, AddressingMode::Implied, AccessType::Read, Operation::Unstable),
        4 => Opcode::new(0x94, "STY", 2, 4, AddressingMode::ZeroPageX, AccessType::Read, Operation::Sty),
        5 => Opcode::new(0x95, "STA", 2, 4, AddressingMode::ZeroPageX, AccessType::Write, Operation::Sta),
        6 => Opcode::new(0x96, "STX", 2, 4, AddressingMode::ZeroPageY, AccessType::Read, Operation::Stx),
        7 => Opcode::new(0x97, "*SAX", 2, 4, AddressingMode::ZeroPageY, AccessType::Write, Operation::Sax),
        8 => Opcode::new(0x98, "TYA", 1, 2, AddressingMode::Implied, AccessType::Register, Operation::Tya),
        9 => Opcode::new(0x99, "STA", 3, 5, AddressingMode::AbsoluteY, AccessType::Write, Operation::Sta),
        10 => Opcode::new(0x9A, "TXS", 1, 2, AddressingMode::Implied, AccessType::Register, Operation::Txs),
        11 => Opcode::new(0x9B, "*UNSTABLE", 1, 1, AddressingMode::Implied, AccessType::Read, Operation::Unstable),
        12 => Opcode::new(0x9C, "*UNSTABLE", 1, 1, AddressingMode::Implied, AccessType::Read, Operation::Unstable),
        13 => Opcode::new(0x9D, "STA", 3, 5, AddressingMode::AbsoluteX, AccessType::Write, Operation::Sta),
        14 => Opcode::new(0x9E, "*UNSTABLE", 1, 1, AddressingMode::Implied, AccessType::Read, Operation::Unstable),
        _ => Opcode::new(0x9F, "*UNSTABLE", 1, 1, AddressingMode::Implied, AccessType::Read, Operation::Unstable),
    }
}

fn lookup_row_a(code: u8) -> (op: Opcode)
    requires
        code / 16 == 10,
    ensures
        op.code == code,
        op.info() == opcode_row_a(code),
{
    match code % 16 {
        0 => Opcode::new(0xA0, "LDY", 2, 2, AddressingMode::Immediate, AccessType::Read, Operation::Ldy),
        1 => Opcode::new(0xA1, "LDA", 2, 6, AddressingMode::IndirectX, AccessType::Read, Operation::Lda),
        2 => Opcode::new(0xA2, "LDX", 2, 2, AddressingMode::Immediate, AccessType::Read, Operation::Ldx),
        3 => Opcode::new(0xA3, "*LAX", 2, 6, AddressingMode::IndirectX, AccessType::Read, Operation::Lax),
        4 => Opcode::new(0xA4, "LDY", 2, 3, AddressingMode::ZeroPage, AccessType::Read, Operation::Ldy),
        5 => Opcode::new(0xA5, "LDA", 2, 3, AddressingMode::ZeroPage, AccessType::Read, Operation::Lda),
        6 => Opcode::new(0xA6, "LDX", 2, 3, AddressingMode::ZeroPage, AccessType::Read, Operation::Ldx),
        7 => Opcode::new(0xA7, "*LAX", 2, 3, AddressingMode::ZeroPage, AccessType::Read, Operation::Lax),
        8 => Opcode::new(0xA8, "TAY", 1, 2, AddressingMode::Implied, AccessType::Register, Operation::Tay),
        9 => Opcode::new(0xA9, "LDA", 2, 2, AddressingMode::Immediate, AccessType::Read, Operation::Lda),
        10 => Opcode::new(0xAA, "TAX", 1, 2, AddressingMode::Implied, AccessType::Register, Operation::Tax),
        11 => Opcode::new(0xAB, "*UNSTABLE", 1, 1, AddressingMode::Implied, AccessType::Read, Operation::Unstable),
        12 => Opcode::new(0xAC, "LDY", 3, 4, AddressingMode::Absolute, AccessType::Read, Operation::Ldy),
        13 => Opcode::new(0xAD, "LDA", 3, 4, AddressingMode::Absolute, AccessType::Read, Operation::Lda),
        14 => Opcode::new(0xAE, "LDX", 3, 4, AddressingMode::Absolute, AccessType::Read, Operation::Ldx),
        _ => Opcode::new(0xAF, "*LAX", 3, 4, AddressingMode::Absolute, AccessType::Read, Operation::Lax),
    }
}

fn lookup_row_b(code: u8) -> (op: Opcode)
    requires
        code / 16 == 11,
    ensures
        op.code == code,
        op.info() == opcode_row_b(code),
{
    match code % 16 {
        0 => Opcode::new(0xB0, "BCS", 2, 2, AddressingMode::Relative, AccessType::Read, Operation::Bcs),
        1 => Opcode::new(0xB1, "LDA", 2, 5, AddressingMode::IndirectY, AccessType::Read, Operation::Lda),
        2 => Opcode::new(0xB2, "*NOP", 1, 11, AddressingMode::Implied, AccessType::Read, Operation::Nop),
        3 => Opcode::new(0xB3, "*LAX", 2, 5, AddressingMode::IndirectY, AccessType::Read, Operation::Lax),
        4 => Opcode::new(0xB4, "LDY", 2, 4, AddressingMode::ZeroPageX, AccessType::Read, Operation::Ldy),
        5 => Opcode::new(0xB5, "LDA", 2, 4, AddressingMode::ZeroPageX, AccessType::Read, Operation::Lda),
        6 => Opcode::new(0xB6, "LDX", 2, 4, AddressingMode::ZeroPageY, AccessType::Read, Operation::Ldx),
        7 => Opcode::new(0xB7, "*LAX", 2, 4, AddressingMode::ZeroPageY, AccessType::Read, Operation::Lax),
        8 => Opcode::new(0xB8, "CLV", 1, 2, AddressingMode::Implied, AccessType::Register, Operation::Clv),
        9 => Opcode::new(0xB9, "LDA", 3, 4, AddressingMode::AbsoluteY, AccessType::Read, Operation::Lda),
        10 => Opcode::new(0xBA, "TSX", 1, 2, AddressingMode::Implied, AccessType::Register, Operation::Tsx),
        11 => Opcode::new(0xBB, "*LAS", 3, 4, AddressingMode::AbsoluteY, AccessType::Read, Operation::Las),
        12 => Opcode::new(0xBC, "LDY", 3, 4, AddressingMode::AbsoluteX, AccessType::Read, Operation::Ldy),
        13 => Opcode::new(0xBD, "LDA", 3, 4, AddressingMode::AbsoluteX, AccessType::Read, Operation::Lda),
        14 => Opcode::new(0xBE, "LDX", 3, 4, AddressingMode::AbsoluteY, AccessType::Read, Operation::Ldx),
        _ => Opcode::new(0xBF, "*LAX", 3, 4, AddressingMode::AbsoluteY, AccessType::Read, Operation::Lax),
    }
}

fn lookup_row_c(code: u8) -> (op: Opcode)
    requires
        code / 16 == 12,
    ensures
        op.code == code,
        op.info() == opcode_row_c(code),
{
    match code % 16 {
        0 => Opcode::new(0xC0, "CPY", 2, 2, AddressingMode::Immediate, AccessType::Read, Operation::Cpy),
        1 => Opcode::new(0xC1, "CMP", 2, 6, AddressingMode::IndirectX, AccessType::Read, Operation::Cmp),
        2 => Opcode::new(0xC2, "*NOP", 2, 2, AddressingMode::Immediate, AccessType::Read, Operation::FatNop),
        3 => Opcode::new(0xC3, "*DCP", 2, 8, AddressingMode::IndirectX, AccessType::ReadModifyWrite, Operation::Dcp),
        4 => Opcode::new(0xC4, "CPY", 2, 3, AddressingMode::ZeroPage, AccessType::Read, Operation::Cpy),
        5 => Opcode::new(0xC5, "CMP", 2, 3, AddressingMode::ZeroPage, AccessType::Read, Operation::Cmp),
        6 => Opcode::new(0xC6, "DEC", 2, 5, AddressingMode::ZeroPage, AccessType::ReadModifyWrite, Operation::Dec),
        7 => Opcode::new(0xC7, "*DCP", 2, 5, AddressingMode::ZeroPage, AccessType::ReadModifyWrite, Operation::Dcp),
        8 => Opcode::new(0xC8, "INY", 1, 2, AddressingMode::Implied, AccessType::Register, Operation::Iny),
        9 => Opcode::new(0xC9, "CMP", 2, 2, AddressingMode::Immediate, AccessType::Read, Operation::Cmp),
        10 => Opcode::new(0xCA, "DEX", 1, 2, AddressingMode::Implied, AccessType::Register, Operation::Dex),
        11 => Opcode::new(0xCB, "*SBX", 2, 2, AddressingMode::Immediate, AccessType::Read, Operation::Sbx),
        12 => Opcode::new(0xCC, "CPY", 3, 4, AddressingMode::Absolute, AccessType::Read, Operation::Cpy),
        13 => Opcode::new(0xCD, "CMP", 3, 4, AddressingMode::Absolute, AccessType::Read, Operation::Cmp),
        14 => Opcode::new(0xCE, "DEC", 3, 6, AddressingMode::Absolute, AccessType::ReadModifyWrite, Operation::Dec),
        _ => Opcode::new(0xCF, "*DCP", 3, 6, AddressingMode::Absolute, AccessType::ReadModifyWrite, Operation::Dcp),
    }
}

fn lookup_row_d(code: u8) -> (op: Opcode)
    requires
        code / 16 == 13,
    ensures
        op.code == code,
        op.info() == opcode_row_d(code),
{
    match code % 16 {
        0 => Opcode::new(0xD0, "BNE", 2, 2, AddressingMode::Relative, AccessType::Read, Operation::Bne),
        1 => Opcode::new(0xD1, "CMP", 2, 5, AddressingMode::IndirectY, AccessType::Read, Operation::Cmp),
        2 => Opcode::new(0xD2, "*NOP", 1, 11, AddressingMode::Implied, AccessType::Read, Operation::Nop),
        3 => Opcode::new(0xD3, "*DCP", 2, 8, AddressingMode::IndirectY, AccessType::ReadModifyWrite, Operation::Dcp),
        4 => Opcode::new(0xD4, "*NOP", 2, 4, AddressingMode::ZeroPageX, AccessType::Read, Operation::FatNop),
        5 => Opcode::new(0xD5, "CMP", 2, 4, AddressingMode::ZeroPageX, AccessType::Read, Operation::Cmp),
        6 => Opcode::new(0xD6, "DEC", 2, 6, AddressingMode::ZeroPageX, AccessType::ReadModifyWrite, Operation::Dec),
        7 => Opcode::new(0xD7, "*DCP", 2, 6, AddressingMode::ZeroPageX, AccessType::ReadModifyWrite, Operation::Dcp),
        8 => Opcode::new(0xD8, "CLD", 1, 2, AddressingMode::Implied, AccessType::Register, Operation::Cld),
        9 => Opcode::new(0xD9, "CMP", 3, 4, AddressingMode::AbsoluteY, AccessType::Read, Operation::Cmp),
        10 => Opcode::new(0xDA, "*NOP", 1, 2, AddressingMode::Implied, AccessType::Read, Operation::Nop),
        11 => Opcode::new(0xDB, "*DCP", 3, 7, AddressingMode::AbsoluteY, AccessType::ReadModifyWrite, Operation::Dcp),
        12 => Opcode::new(0xDC, "*NOP", 3, 4, AddressingMode::AbsoluteX, AccessType::Read, Operation::FatNop),
        13 => Opcode::new(0xDD, "CMP", 3, 4, AddressingMode::AbsoluteX, AccessType::Read, Operation::Cmp),
        14 => Opcode::new(0xDE, "DEC", 3, 7, AddressingMode::AbsoluteX, AccessType::ReadModifyWrite, Operation::Dec),
        _ => Opcode::new(0xDF, "*DCP", 3, 7, AddressingMode::AbsoluteX, AccessType::ReadModifyWrite, Operation::Dcp),
    }
}

fn lookup_row_e(code: u8) -> (op: Opcode)
    requires
        code / 16 == 14,
    ensures
        op.code == code,
        op.info() == opcode_row_e(code),
{
    match code % 16 {
        0 => Opcode::new(0xE0, "CPX", 2, 2, AddressingMode::Immediate, AccessType::Read, Operation::Cpx),
        1 => Opcode::new(0xE1, "SBC", 2, 6, AddressingMode::IndirectX, AccessType::Read, Operation::Sbc),
        2 => Opcode::new(0xE2, "*NOP", 2, 2, AddressingMode::Immediate, AccessType::Read, Operation::FatNop),
        3 => Opcode::new(0xE3, "*ISC", 2, 8, AddressingMode::IndirectX, AccessType::ReadModifyWrite, Operation::Isc),
        4 => Opcode::new(0xE4, "CPX", 2, 3, AddressingMode::ZeroPage, AccessType::Read, Operation::Cpx),
        5 => Opcode::new(0xE5, "SBC", 2, 3, AddressingMode::ZeroPage, AccessType::Read, Operation::Sbc),
        6 => Opcode::new(0xE6, "INC", 2, 5, AddressingMode::ZeroPage, AccessType::ReadModifyWrite, Operation::Inc),
        7 => Opcode::new(0xE7, "*ISC", 2, 5, AddressingMode::ZeroPage, AccessType::ReadModifyWrite, Operation::Isc),
        8 => Opcode::new(0xE8, "INX", 1, 2, AddressingMode::Implied, AccessType::Register, Operation::Inx),
        9 => Opcode::new(0xE9, "SBC", 2, 2, AddressingMode::Immediate, AccessType::Read, Operation::Sbc),
        10 => Opcode::new(0xEA, "NOP", 1, 2, AddressingMode::Implied, AccessType::Implied, Operation::Nop),
        11 => Opcode::new(0xEB, "*USBC", 2, 2, AddressingMode::Immediate, AccessType::Read, Operation::Usbc),
        12 => Opcode::new(0xEC, "CPX", 3, 4, AddressingMode::Absolute, AccessType::Read, Operation::Cpx),
        13 => Opcode::new(0xED, "SBC", 3, 4, AddressingMode::Absolute, AccessType::Read, Operation::Sbc),
        14 => Opcode::new(0xEE, "INC", 3, 6, AddressingMode::Absolute, AccessType::ReadModifyWrite, Operation::Inc),
        _ => Opcode::new(0xEF, "*ISC", 3, 6, AddressingMode::Absolute, AccessType::ReadModifyWrite, Operation::Isc),
    }
}

fn lookup_row_f(code: u8) -> (op: Opcode)
    requires
        code / 16 == 15,
    ensures
        op.code == code,
        op.info() == opcode_row_f(code),
{
    match code % 16 {
        0 => Opcode::new(0xF0, "BEQ", 2, 2, AddressingMode::Relative, AccessType::Read, Operation::Beq),
        1 => Opcode::new(0xF1, "SBC", 2, 5, AddressingMode::IndirectY, AccessType::Read, Operation::Sbc),
        2 => Opcode::new(0xF2, "*NOP", 1, 11, AddressingMode::Implied, AccessType::Read, Operation::Nop),
        3 => Opcode::new(0xF3, "*ISC", 2, 8, AddressingMode::IndirectY, AccessType::ReadModifyWrite, Operation::Isc),
        4 => Opcode::new(0xF4, "*NOP", 2, 4, AddressingMode::ZeroPageX, AccessType::Read, Operation::FatNop),
        5 => Opcode::new(0xF5, "SBC", 2, 4, AddressingMode::ZeroPageX, AccessType::Read, Operation::Sbc),
        6 => Opcode::new(0xF6, "INC", 2, 6, AddressingMode::ZeroPageX, AccessType::ReadModifyWrite, Operation::Inc),
        7 => Opcode::new(0xF7, "*ISC", 2, 6, AddressingMode::ZeroPageX, AccessType::ReadModifyWrite, Operation::Isc),
        8 => Opcode::new(0xF8, "SED", 1, 2, AddressingMode::Implied, AccessType::Register, Operation::Sed),
        9 => Opcode::new(0xF9, "SBC", 3, 4, AddressingMode::AbsoluteY, AccessType::Read, Operation::Sbc),
        10 => Opcode::new(0xFA, "*NOP", 1, 2, AddressingMode::Implied, AccessType::Read, Operation::Nop),
        11 => Opcode::new(0xFB, "*ISC", 3, 7, AddressingMode::AbsoluteY, AccessType::ReadModifyWrite, Operation::Isc),
        12 => Opcode::new(0xFC, "*NOP", 3, 4, AddressingMode::AbsoluteX, AccessType::Read, Operation::FatNop),
        13 => Opcode::new(0xFD, "SBC", 3, 4, AddressingMode::AbsoluteX, AccessType::Read, Operation::Sbc),
        14 => Opcode::new(0xFE, "INC", 3, 7, AddressingMode::AbsoluteX, AccessType::ReadModifyWrite, Operation::Inc),
        _ => Opcode::new(0xFF, "*ISC", 3, 7, AddressingMode::AbsoluteX, AccessType::ReadModifyWrite, Operation::Isc),
    }
}

} // verus!
