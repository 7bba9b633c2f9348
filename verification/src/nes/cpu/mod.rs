use vstd::prelude::*;

pub mod interrupts;
pub mod opcodes;
pub mod instruction_handlers;
pub mod addressing_cycles;
pub mod processor;
pub mod laws;

pub use processor::CPU;

verus! {

pub const CPU_STACK_RESET: u8 = 0xFF;

pub const CPU_STACK_BASE: u16 = 0x0100;

/// The processor status register (`NV1B DIZC`).
#[derive(Clone, Copy, Debug, PartialEq, Eq, Structural)]
pub struct Flags {
    pub bits: u8,
}

/// The value of `s` with the bits of `mask` set when `value` holds, cleared otherwise.
pub open spec fn set_bits(s: u8, mask: u8, value: bool) -> u8 {
    if value {
        s | mask
    } else {
        s & !mask
    }
}

impl Flags {
    pub const CARRY: u8 = 0b0000_0001;
    pub const ZERO: u8 = 0b0000_0010;
    pub const INTERRUPT_DISABLE: u8 = 0b0000_0100;
    pub const DECIMAL_MODE: u8 = 0b0000_1000;
    pub const BREAK: u8 = 0b0001_0000;
    pub const BREAK2: u8 = 0b0010_0000;
    pub const OVERFLOW: u8 = 0b0100_0000;
    pub const NEGATIVE: u8 = 0b1000_0000;

    /// Whether every bit of `mask` is set.
    pub open spec fn has(self, mask: u8) -> bool {
        self.bits & mask == mask
    }

    pub fn from_bits_truncate(bits: u8) -> (f: Flags)
        ensures
            f.bits == bits,
    {
        Flags { bits }
    }

    pub fn bits(&self) -> (b: u8)
        ensures
            b == self.bits,
    {
        self.bits
    }

    pub fn contains(&self, mask: u8) -> (r: bool)
        ensures
            r == self.has(mask),
    {
        self.bits & mask == mask
    }

    pub fn insert(&mut self, mask: u8)
        ensures
            final(self).bits == old(self).bits | mask,
    {
        self.bits = self.bits | mask;
    }

    pub fn remove(&mut self, mask: u8)
        ensures
            final(self).bits == old(self).bits & !mask,
    {
        self.bits = self.bits & !mask;
    }

    pub fn set(&mut self, mask: u8, value: bool)
        ensures
            final(self).bits == set_bits(old(self).bits, mask, value),
    {
        if value {
            self.bits = self.bits | mask;
        } else {
            self.bits = self.bits & !mask;
        }
    }
}

/// How an instruction finds its operand.
#[derive(Clone, Copy, Debug, PartialEq, Eq, Structural)]
pub enum AddressingMode {
    Immediate,
    ZeroPage,
    ZeroPageX,
    ZeroPageY,
    Absolute,
    AbsoluteX,
    AbsoluteY,
    IndirectX,
    IndirectY,
    /// Exclusive to JMP.
    Indirect,
    /// Exclusive to the branches.
    Relative,
    Implied,
}

/// How an instruction uses its operand; reads pay one cycle more when an index crosses a page.
#[derive(Clone, Copy, Debug, PartialEq, Eq, Structural)]
pub enum AccessType {
    Implied,
    Read,
    Write,
    ReadModifyWrite,
    Register,
}

impl AccessType {
    pub fn default() -> (a: AccessType)
        ensures
            a == AccessType::Read,
    {
        AccessType::Read
    }
}

#[derive(Clone, Copy, Debug, PartialEq, Eq, Structural)]
pub enum CpuMode {
    Read,
    Write,
}

/// Why the processor stopped.
#[derive(Clone, Copy, Debug, PartialEq, Eq, Structural)]
pub enum CpuError {
    JamOpcode(u8),
    UnknownOpcode(u8),
    UnstableOpcode(u8),
    InvalidNMI,
    InvalidOpcode(u8),
}

/// The memory the processor sees: an abstract state, what each read returns and
/// what reads and writes leave behind (reads of device registers have effects).
pub trait CpuBusInterface: Sized {
    type State;

    spec fn state(&self) -> Self::State;

    /// The byte that a read of `addr` returns.
    spec fn read_value(s: Self::State, addr: u16) -> u8;

    /// The state after a read of `addr`.
    spec fn after_read(s: Self::State, addr: u16) -> Self::State;

    /// The state after `value` is written to `addr`.
    spec fn after_write(s: Self::State, addr: u16, value: u8) -> Self::State;

    fn cpu_bus_read(&mut self, addr: u16) -> (r: u8)
        ensures
            r == Self::read_value(old(self).state(), addr),
            final(self).state() == Self::after_read(old(self).state(), addr),
    ;

    fn cpu_bus_write(&mut self, addr: u16, value: u8)
        ensures
            final(self).state() == Self::after_write(old(self).state(), addr, value),
    ;
}

impl CpuError {
    /// The text of each error's message.
    pub open spec fn message_spec(self) -> Seq<char> {
        match self {
            CpuError::JamOpcode(_) => "JAM opcode encountered"@,
            CpuError::UnknownOpcode(_) => "Unknown opcode"@,
            CpuError::UnstableOpcode(_) => "Unstable opcode"@,
            CpuError::InvalidNMI => "Invalid NMI encountered"@,
            CpuError::InvalidOpcode(_) => "Invalid opcode"@,
        }
    }

    /// The message that describes the error.
    pub fn message(&self) -> (m: String)
        ensures
            m@ == self.message_spec(),
    {
        match self {
            CpuError::JamOpcode(_) => "JAM opcode encountered".to_string(),
            CpuError::UnknownOpcode(_) => "Unknown opcode".to_string(),
            CpuError::UnstableOpcode(_) => "Unstable opcode".to_string(),
            CpuError::InvalidNMI => "Invalid NMI encountered".to_string(),
            CpuError::InvalidOpcode(_) => "Invalid opcode".to_string(),
        }
    }
}

} // verus!
