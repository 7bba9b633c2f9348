use vstd::prelude::*;
use super::{AccessType, AddressingMode, CpuBusInterface};
use super::instruction_handlers::{
    add16, apply_read_op, apply_rmw_op, branch_taken, is_branch_taken, read_byte, read_op_spec, rmw_spec,
    store_value, store_value_spec, sub16, Registers,
};
use super::opcodes::Operation;

verus! {

/// Where the cycle-by-cycle address resolution stands after a cycle.
#[derive(Clone, Copy, Debug, PartialEq, Eq, Structural)]
pub enum AddrResult {
    /// More cycles are needed.
    InProgress,
    /// The effective address is known.
    Ready(u16),
    /// The operand byte itself was fetched (immediate mode).
    ReadyImmediate(u8),
}

/// Where an instruction stands once its address is known.
#[derive(Clone, Copy, Debug, PartialEq, Eq, Structural)]
pub enum ExecPhase {
    /// Waiting for address resolution.
    Idle,
    Read,
    /// Work inside the processor (the ALU, a branch's target).
    Internal,
    Write,
    Done,
}

/// The state an instruction carries from one cycle to the next while its operand address
/// is resolved.
#[derive(Clone, Copy, Debug, PartialEq, Eq, Structural)]
pub struct CpuCycleState {
    /// Cycles of address resolution done so far.
    pub micro_cycle: u8,
    pub access_type: AccessType,
    pub tmp_addr: u16,
    pub tmp_data: u8,
    /// Whether indexing carried into the high byte.
    pub page_crossed: bool,
    pub exec_phase: ExecPhase,
}

/// The byte at the program counter, and the counter moved past it.
pub open spec fn consume_pc<B: CpuBusInterface>(regs: Registers, bus: B::State) -> (u8, Registers, B::State) {
    let r = read_byte::<B>(bus, regs.program_counter);
    (r.0, Registers { program_counter: add16(regs.program_counter, 1), ..regs }, r.1)
}

/// Whether `mode` can take a cycle at `state`: the cycles past the last one of immediate,
/// indexed zero-page, indexed absolute and (zero-page,X) addressing do not exist, implied
/// addressing resolves nothing, the address arithmetic of the indirect modes needs its
/// pointer below $FFFF, and the cycle count must not overflow.
pub open spec fn addr_cycle_defined(state: CpuCycleState, mode: AddressingMode) -> bool {
    let mc = state.micro_cycle;
    match mode {
        AddressingMode::Immediate => mc == 0,
        AddressingMode::ZeroPage => true,
        AddressingMode::ZeroPageX | AddressingMode::ZeroPageY => mc <= 2,
        AddressingMode::Absolute => true,
        AddressingMode::AbsoluteX | AddressingMode::AbsoluteY => mc <= 3,
        AddressingMode::IndirectX => mc <= 4 && (mc == 3 ==> state.tmp_addr < 0xFFFF),
        AddressingMode::IndirectY => (mc == 2 ==> state.tmp_addr < 0xFFFF) && (mc >= 5 ==> mc < 255),
        AddressingMode::Indirect => (mc == 3 ==> state.tmp_addr < 0xFFFF) && (mc >= 4 ==> mc < 255),
        AddressingMode::Relative => mc < 255,
        AddressingMode::Implied => false,
    }
}

/// Whether the indexed access pays its extra cycle: reads only when the index crossed a
/// page, every other access always.
pub open spec fn needs_dummy_cycle_spec(state: CpuCycleState) -> bool {
    match state.access_type {
        AccessType::Read => state.page_crossed,
        _ => true,
    }
}

/// The address with the index carried into its high byte undone: where the 6502 reads
/// before it has fixed the high byte.
pub open spec fn uncarried(addr: u16, index: u8) -> u16 {
    (addr & 0xFF00) | (sub16(addr, index as u16) & 0x00FF)
}

impl CpuCycleState {
    /// The state at the start of an instruction that uses its operand as `access_type`.
    pub fn new(access_type: AccessType) -> (s: CpuCycleState)
        ensures
            s == (CpuCycleState {
                micro_cycle: 0,
                access_type,
                tmp_addr: 0,
                tmp_data: 0,
                page_crossed: false,
                exec_phase: ExecPhase::Idle,
            }),
    {
        CpuCycleState {
            micro_cycle: 0,
            access_type,
            tmp_addr: 0,
            tmp_data: 0,
            page_crossed: false,
            exec_phase: ExecPhase::Idle,
        }
    }

    /// One cycle of resolving the operand address of `mode`: the new state, registers
    /// (only the program counter moves), bus state and result.
    ///
    /// Zero-page and absolute addresses come from the bytes after the opcode; the indexed
    /// zero-page modes read the unindexed address once (a dummy read) and wrap in page
    /// zero; the indexed absolute modes, and (zero-page),Y, compute the sum in the cycle
    /// that fetches the high byte and spend one more cycle, with a dummy read at the
    /// uncarried address, unless the access is a read that crossed no page; (zero-page,X)
    /// reads the pointer once unindexed, then its two bytes in page zero; indirect JMP
    /// reads its pointer's high byte without carrying into the pointer's page. A mode
    /// that is already resolved answers with the same address again.
    pub open spec fn addr_cycle_spec<B: CpuBusInterface>(
        self,
        mode: AddressingMode,
        regs: Registers,
        bus: B::State,
    ) -> (CpuCycleState, Registers, B::State, AddrResult) {
        let mc = self.micro_cycle;
        let step = CpuCycleState { micro_cycle: (mc + 1) as u8, ..self };
        match mode {
            AddressingMode::Immediate => {
                let c = consume_pc::<B>(regs, bus);
                (CpuCycleState { tmp_data: c.0, ..step }, c.1, c.2, AddrResult::ReadyImmediate(c.0))
            },
            AddressingMode::ZeroPage => if mc == 0 {
                let c = consume_pc::<B>(regs, bus);
                (CpuCycleState { tmp_addr: c.0 as u16, ..step }, c.1, c.2, AddrResult::Ready(c.0 as u16))
            } else {
                (self, regs, bus, AddrResult::Ready(self.tmp_addr))
            },
            AddressingMode::ZeroPageX | AddressingMode::ZeroPageY => {
                let index = if mode == AddressingMode::ZeroPageX { regs.register_x } else { regs.register_y };
                if mc == 0 {
                    let c = consume_pc::<B>(regs, bus);
                    (CpuCycleState { tmp_addr: c.0 as u16, ..step }, c.1, c.2, AddrResult::InProgress)
                } else if mc == 1 {
                    let d = read_byte::<B>(bus, self.tmp_addr);
                    let addr = add16(self.tmp_addr, index as u16) & 0x00FF;
                    (CpuCycleState { tmp_addr: addr, ..step }, regs, d.1, AddrResult::Ready(addr))
                } else {
                    (self, regs, bus, AddrResult::Ready(self.tmp_addr))
                }
            },
            AddressingMode::Absolute => if mc == 0 {
                let c = consume_pc::<B>(regs, bus);
                (CpuCycleState { tmp_addr: c.0 as u16, ..step }, c.1, c.2, AddrResult::InProgress)
            } else if mc == 1 {
                let c = consume_pc::<B>(regs, bus);
                let addr = self.tmp_addr | ((c.0 as u16) << 8u16);
                (CpuCycleState { tmp_addr: addr, ..step }, c.1, c.2, AddrResult::Ready(addr))
            } else {
                (self, regs, bus, AddrResult::Ready(self.tmp_addr))
            },
            AddressingMode::AbsoluteX | AddressingMode::AbsoluteY => {
                let index = if mode == AddressingMode::AbsoluteX { regs.register_x } else { regs.register_y };
                if mc == 0 {
                    let c = consume_pc::<B>(regs, bus);
                    (CpuCycleState { tmp_addr: c.0 as u16, ..step }, c.1, c.2, AddrResult::InProgress)
                } else if mc == 1 {
                    let c = consume_pc::<B>(regs, bus);
                    let base = self.tmp_addr | ((c.0 as u16) << 8u16);
                    let addr = add16(base, index as u16);
                    let s = CpuCycleState { page_crossed: (base & 0xFF00) != (addr & 0xFF00), tmp_addr: addr, ..step };
                    if !needs_dummy_cycle_spec(s) {
                        (s, c.1, c.2, AddrResult::Ready(addr))
                    } else {
                        (s, c.1, c.2, AddrResult::InProgress)
                    }
                } else if mc == 2 {
                    let b = if needs_dummy_cycle_spec(self) {
                        read_byte::<B>(bus, uncarried(self.tmp_addr, index)).1
                    } else {
                        bus
                    };
                    (step, regs, b, AddrResult::Ready(self.tmp_addr))
                } else {
                    (self, regs, bus, AddrResult::Ready(self.tmp_addr))
                }
            },
            AddressingMode::IndirectX => if mc == 0 {
                let c = consume_pc::<B>(regs, bus);
                (CpuCycleState { tmp_addr: c.0 as u16, ..step }, c.1, c.2, AddrResult::InProgress)
            } else if mc == 1 {
                (step, regs, read_byte::<B>(bus, self.tmp_addr).1, AddrResult::InProgress)
            } else if mc == 2 {
                let addr = add16(self.tmp_addr, regs.register_x as u16) & 0x00FF;
                let lo = read_byte::<B>(bus, addr);
                (CpuCycleState { tmp_data: lo.0, tmp_addr: addr, ..step }, regs, lo.1, AddrResult::InProgress)
            } else if mc == 3 {
                let hi = read_byte::<B>(bus, ((self.tmp_addr + 1) as u16) & 0x00FF);
                let addr = ((hi.0 as u16) << 8u16) | (self.tmp_data as u16);
                (CpuCycleState { tmp_addr: addr, ..step }, regs, hi.1, AddrResult::Ready(addr))
            } else {
                (self, regs, bus, AddrResult::Ready(self.tmp_addr))
            },
            AddressingMode::IndirectY => if mc == 0 {
                let c = consume_pc::<B>(regs, bus);
                (CpuCycleState { tmp_addr: c.0 as u16, ..step }, c.1, c.2, AddrResult::InProgress)
            } else if mc == 1 {
                let lo = read_byte::<B>(bus, self.tmp_addr & 0x00FF);
                (CpuCycleState { tmp_data: lo.0, ..step }, regs, lo.1, AddrResult::InProgress)
            } else if mc == 2 {
                let hi = read_byte::<B>(bus, ((self.tmp_addr + 1) as u16) & 0x00FF);
                let base = ((hi.0 as u16) << 8u16) | (self.tmp_data as u16);
                let addr = add16(base, regs.register_y as u16);
                let s = CpuCycleState { page_crossed: (base & 0xFF00) != (addr & 0xFF00), tmp_addr: addr, ..step };
                if !needs_dummy_cycle_spec(s) {
                    (s, regs, hi.1, AddrResult::Ready(addr))
                } else {
                    (s, regs, hi.1, AddrResult::InProgress)
                }
            } else if mc == 3 {
                let b = if needs_dummy_cycle_spec(self) {
                    read_byte::<B>(bus, uncarried(self.tmp_addr, regs.register_y)).1
                } else {
                    bus
                };
                (step, regs, b, AddrResult::Ready(self.tmp_addr))
            } else if mc == 4 {
                (self, regs, bus, AddrResult::Ready(self.tmp_addr))
            } else {
                (step, regs, bus, AddrResult::InProgress)
            },
            AddressingMode::Indirect => if mc == 0 {
                let c = consume_pc::<B>(regs, bus);
                (CpuCycleState { tmp_addr: c.0 as u16, ..step }, c.1, c.2, AddrResult::InProgress)
            } else if mc == 1 {
                let c = consume_pc::<B>(regs, bus);
                (CpuCycleState { tmp_addr: self.tmp_addr | ((c.0 as u16) << 8u16), ..step }, c.1, c.2, AddrResult::InProgress)
            } else if mc == 2 {
                let lo = read_byte::<B>(bus, self.tmp_addr);
                (CpuCycleState { tmp_data: lo.0, ..step }, regs, lo.1, AddrResult::InProgress)
            } else if mc == 3 {
                let hi_addr = (self.tmp_addr & 0xFF00) | (((self.tmp_addr + 1) as u16) & 0x00FF);
                let hi = read_byte::<B>(bus, hi_addr);
                let addr = ((hi.0 as u16) << 8u16) | (self.tmp_data as u16);
                (CpuCycleState { tmp_addr: addr, ..self }, regs, hi.1, AddrResult::Ready(addr))
            } else {
                (step, regs, bus, AddrResult::InProgress)
            },
            AddressingMode::Relative => if mc == 0 {
                let c = consume_pc::<B>(regs, bus);
                (CpuCycleState { tmp_data: c.0, ..step }, c.1, c.2, AddrResult::Ready(self.tmp_addr))
            } else if mc == 1 {
                (self, regs, bus, AddrResult::Ready(self.tmp_addr))
            } else {
                (step, regs, bus, AddrResult::InProgress)
            },
            AddressingMode::Implied => (self, regs, bus, AddrResult::InProgress),
        }
    }

    /// Whether this cycle's indexed access pays its extra cycle.
    pub fn needs_dummy_cycle(&self) -> (r: bool)
        ensures
            r == needs_dummy_cycle_spec(*self),
    {
        match self.access_type {
            AccessType::Read => self.page_crossed,
            _ => true,
        }
    }

    /// Runs one cycle of address resolution for `mode`; see `addr_cycle_spec`.
    pub fn tick_addressing_mode<B: CpuBusInterface>(
        &mut self,
        mode: AddressingMode,
        regs: &mut Registers,
        bus: &mut B,
    ) -> (r: AddrResult)
        requires
            addr_cycle_defined(*old(self), mode),
        ensures
            (*final(self), *final(regs), final(bus).state(), r)
                == old(self).addr_cycle_spec::<B>(mode, *old(regs), old(bus).state()),
    {
        match mode {
            AddressingMode::Immediate => {
                self.tmp_data = consume_program_counter(regs, bus);
                self.micro_cycle += 1;
                return AddrResult::ReadyImmediate(self.tmp_data);
            },
            AddressingMode::ZeroPage => {
                if self.micro_cycle == 0 {
                    let zero_page = consume_program_counter(regs, bus);
                    self.tmp_addr = zero_page as u16;
                    self.micro_cycle += 1;
                }
                return AddrResult::Ready(self.tmp_addr);
            },
            AddressingMode::ZeroPageX | AddressingMode::ZeroPageY => {
                let index = if mode == AddressingMode::ZeroPageX { regs.register_x } else { regs.register_y };
                if self.micro_cycle == 0 {
                    let zero_page = consume_program_counter(regs, bus);
                    self.tmp_addr = zero_page as u16;
                } else if self.micro_cycle == 1 {
                    let _ = bus.cpu_bus_read(self.tmp_addr);
                    self.tmp_addr = self.tmp_addr.wrapping_add(index as u16) & 0x00FF;
                    self.micro_cycle += 1;
                    return AddrResult::Ready(self.tmp_addr);
                } else {
                    return AddrResult::Ready(self.tmp_addr);
                }
            },
            AddressingMode::Absolute => {
                if self.micro_cycle == 0 {
                    let lo = consume_program_counter(regs, bus);
                    self.tmp_addr = lo as u16;
                } else if self.micro_cycle == 1 {
                    let hi = consume_program_counter(regs, bus);
                    self.tmp_addr = self.tmp_addr | ((hi as u16) << 8u16);
                    self.micro_cycle += 1;
                    return AddrResult::Ready(self.tmp_addr);
                } else {
                    return AddrResult::Ready(self.tmp_addr);
                }
            },
            AddressingMode::AbsoluteX | AddressingMode::AbsoluteY => {
                let index = if mode == AddressingMode::AbsoluteX { regs.register_x } else { regs.register_y };
                if self.micro_cycle == 0 {
                    let lo = consume_program_counter(regs, bus);
                    self.tmp_addr = lo as u16;
                } else if self.micro_cycle == 1 {
                    let hi = consume_program_counter(regs, bus);
                    let base = self.tmp_addr | ((hi as u16) << 8u16);
                    let addr = base.wrapping_add(index as u16);
                    self.page_crossed = (base & 0xFF00) != (addr & 0xFF00);
                    self.tmp_addr = addr;
                    if !self.needs_dummy_cycle() {
                        self.micro_cycle += 1;
                        return AddrResult::Ready(self.tmp_addr);
                    }
                } else if self.micro_cycle == 2 {
                    if self.needs_dummy_cycle() {
                        let dummy = (self.tmp_addr & 0xFF00) | (self.tmp_addr.wrapping_sub(index as u16) & 0x00FF);
                        let _ = bus.cpu_bus_read(dummy);
                    }
                    self.micro_cycle += 1;
                    return AddrResult::Ready(self.tmp_addr);
                } else {
                    return AddrResult::Ready(self.tmp_addr);
                }
            },
            AddressingMode::IndirectX => {
                if self.micro_cycle == 0 {
                    let zero_page = consume_program_counter(regs, bus);
                    self.tmp_addr = zero_page as u16;
                } else if self.micro_cycle == 1 {
                    let _ = bus.cpu_bus_read(self.tmp_addr);
                } else if self.micro_cycle == 2 {
                    let addr = self.tmp_addr.wrapping_add(regs.register_x as u16) & 0x00FF;
                    let lo = bus.cpu_bus_read(addr);
                    self.tmp_data = lo;
                    self.tmp_addr = addr;
                } else if self.micro_cycle == 3 {
                    let hi = bus.cpu_bus_read((self.tmp_addr + 1) & 0x00FF);
                    self.tmp_addr = ((hi as u16) << 8u16) | (self.tmp_data as u16);
                    self.micro_cycle += 1;
                    return AddrResult::Ready(self.tmp_addr);
                } else {
                    return AddrResult::Ready(self.tmp_addr);
                }
            },
            AddressingMode::IndirectY => {
                if self.micro_cycle == 0 {
                    let zero_page = consume_program_counter(regs, bus);
                    self.tmp_addr = zero_page as u16;
                } else if self.micro_cycle == 1 {
                    let lo = bus.cpu_bus_read(self.tmp_addr & 0x00FF);
                    self.tmp_data = lo;
                } else if self.micro_cycle == 2 {
                    let hi = bus.cpu_bus_read((self.tmp_addr + 1) & 0x00FF);
                    let base = ((hi as u16) << 8u16) | (self.tmp_data as u16);
                    let addr = base.wrapping_add(regs.register_y as u16);
                    self.page_crossed = (base & 0xFF00) != (addr & 0xFF00);
                    self.tmp_addr = addr;
                    if !self.needs_dummy_cycle() {
                        self.micro_cycle += 1;
                        return AddrResult::Ready(self.tmp_addr);
                    }
                } else if self.micro_cycle == 3 {
                    if self.needs_dummy_cycle() {
                        let dummy = (self.tmp_addr & 0xFF00) | (self.tmp_addr.wrapping_sub(regs.register_y as u16) & 0x00FF);
                        let _ = bus.cpu_bus_read(dummy);
                    }
                    self.micro_cycle += 1;
                    return AddrResult::Ready(self.tmp_addr);
                } else if self.micro_cycle == 4 {
                    return AddrResult::Ready(self.tmp_addr);
                }
            },
            AddressingMode::Indirect => {
                if self.micro_cycle == 0 {
                    let lo = consume_program_counter(regs, bus);
                    self.tmp_addr = lo as u16;
                } else if self.micro_cycle == 1 {
                    let hi = consume_program_counter(regs, bus);
                    self.tmp_addr = self.tmp_addr | ((hi as u16) << 8u16);
                } else if self.micro_cycle == 2 {
                    let lo = bus.cpu_bus_read(self.tmp_addr);
                    self.tmp_data = lo;
                } else if self.micro_cycle == 3 {
                    // The high byte comes from the same page: the 6502 does not carry here.
                    let hi_addr = (self.tmp_addr & 0xFF00) | ((self.tmp_addr + 1) & 0x00FF);
                    let hi = bus.cpu_bus_read(hi_addr);
                    self.tmp_addr = ((hi as u16) << 8u16) | (self.tmp_data as u16);
                    return AddrResult::Ready(self.tmp_addr);
                }
            },
            AddressingMode::Relative => {
                if self.micro_cycle == 0 {
                    self.tmp_data = consume_program_counter(regs, bus);
                    self.micro_cycle += 1;
                    return AddrResult::Ready(self.tmp_addr);
                } else if self.micro_cycle == 1 {
                    return AddrResult::Ready(self.tmp_addr);
                }
            },
            AddressingMode::Implied => {
                return AddrResult::InProgress;
            },
        }
        self.micro_cycle += 1;
        AddrResult::InProgress
    }
}

/// The sign-extended branch offset.
pub open spec fn branch_offset(d: u8) -> u16 {
    if d >= 128 { (d + 0xFF00) as u16 } else { d as u16 }
}

impl CpuCycleState {
    /// One cycle of a read instruction (`op` is a load, ALU or compare operation): the
    /// address resolves, a cycle passes, then the operand is read and `op` applied; an
    /// immediate operand is applied at once. Returns whether the instruction finished.
    pub open spec fn read_cycle_spec<B: CpuBusInterface>(
        self,
        mode: AddressingMode,
        op: Operation,
        regs: Registers,
        bus: B::State,
    ) -> (CpuCycleState, Registers, B::State, bool) {
        let a = self.addr_cycle_spec::<B>(mode, regs, bus);
        let s = a.0;
        match a.3 {
            AddrResult::InProgress => (s, a.1, a.2, false),
            AddrResult::Ready(addr) => if s.exec_phase == ExecPhase::Idle {
                (CpuCycleState { exec_phase: ExecPhase::Read, ..s }, a.1, a.2, false)
            } else {
                let d = read_byte::<B>(a.2, addr);
                (CpuCycleState { tmp_data: d.0, exec_phase: ExecPhase::Done, ..s }, read_op_spec(op, a.1, d.0), d.1, true)
            },
            AddrResult::ReadyImmediate(_) => (s, read_op_spec(op, a.1, s.tmp_data), a.2, true),
        }
    }

    /// One cycle of a store (`op` picks the register, or A AND X): the address resolves, a
    /// cycle passes, then the byte is written. Returns whether the instruction finished.
    pub open spec fn write_cycle_spec<B: CpuBusInterface>(
        self,
        mode: AddressingMode,
        op: Operation,
        regs: Registers,
        bus: B::State,
    ) -> (CpuCycleState, Registers, B::State, bool) {
        let a = self.addr_cycle_spec::<B>(mode, regs, bus);
        let s = a.0;
        match a.3 {
            AddrResult::Ready(addr) => if s.exec_phase == ExecPhase::Idle {
                (CpuCycleState { exec_phase: ExecPhase::Write, ..s }, a.1, a.2, false)
            } else {
                let v = store_value_spec(op, a.1);
                (CpuCycleState { tmp_data: v, exec_phase: ExecPhase::Done, ..s }, a.1, B::after_write(a.2, addr, v), true)
            },
            _ => (s, a.1, a.2, false),
        }
    }

    /// One cycle of a read-modify-write instruction: after the address, a cycle passes,
    /// the byte is read, written back unchanged while `op` computes, and the result is
    /// written. Returns whether the instruction finished.
    pub open spec fn read_modify_write_cycle_spec<B: CpuBusInterface>(
        self,
        mode: AddressingMode,
        op: Operation,
        regs: Registers,
        bus: B::State,
    ) -> (CpuCycleState, Registers, B::State, bool) {
        let a = self.addr_cycle_spec::<B>(mode, regs, bus);
        let s = a.0;
        match a.3 {
            AddrResult::Ready(addr) => if s.exec_phase == ExecPhase::Idle {
                (CpuCycleState { exec_phase: ExecPhase::Read, ..s }, a.1, a.2, false)
            } else if s.exec_phase == ExecPhase::Read {
                let d = read_byte::<B>(a.2, addr);
                (CpuCycleState { tmp_data: d.0, exec_phase: ExecPhase::Internal, ..s }, a.1, d.1, false)
            } else if s.exec_phase == ExecPhase::Internal {
                let b = B::after_write(a.2, addr, s.tmp_data);
                let m = rmw_spec(op, a.1, s.tmp_data);
                (CpuCycleState { tmp_data: m.0, exec_phase: ExecPhase::Write, ..s }, m.1, b, false)
            } else {
                (CpuCycleState { exec_phase: ExecPhase::Done, ..s }, a.1, B::after_write(a.2, addr, s.tmp_data), true)
            },
            _ => (s, a.1, a.2, false),
        }
    }

    /// One cycle of a branch: the offset is fetched and the condition decided; a taken
    /// branch spends a cycle moving the program counter, and one more when the target is
    /// in another page. Returns whether the instruction finished.
    pub open spec fn branch_cycle_spec<B: CpuBusInterface>(
        self,
        op: Operation,
        regs: Registers,
        bus: B::State,
    ) -> (CpuCycleState, Registers, B::State, bool) {
        let a = self.addr_cycle_spec::<B>(AddressingMode::Relative, regs, bus);
        let s = a.0;
        let r = a.1;
        match a.3 {
            AddrResult::Ready(_) => if s.exec_phase == ExecPhase::Idle {
                if branch_taken(op, r.status) {
                    (CpuCycleState { exec_phase: ExecPhase::Internal, ..s }, r, a.2, false)
                } else {
                    (CpuCycleState { exec_phase: ExecPhase::Done, ..s }, r, a.2, true)
                }
            } else if s.exec_phase == ExecPhase::Internal {
                let old_pc = r.program_counter;
                let new_pc = add16(old_pc, branch_offset(s.tmp_data));
                let r2 = Registers { program_counter: new_pc, ..r };
                if (old_pc & 0xFF00) != (new_pc & 0xFF00) {
                    (CpuCycleState { page_crossed: true, exec_phase: ExecPhase::Write, ..s }, r2, a.2, false)
                } else {
                    (CpuCycleState { exec_phase: ExecPhase::Done, ..s }, r2, a.2, true)
                }
            } else {
                (CpuCycleState { exec_phase: ExecPhase::Done, ..s }, r, a.2, true)
            },
            _ => (s, r, a.2, false),
        }
    }

    /// Runs one cycle of a read instruction; see `read_cycle_spec`.
    pub fn exec_read_cycle<B: CpuBusInterface>(
        &mut self,
        mode: AddressingMode,
        op: Operation,
        regs: &mut Registers,
        bus: &mut B,
    ) -> (done: bool)
        requires
            addr_cycle_defined(*old(self), mode),
            old(self).addr_cycle_spec::<B>(mode, *old(regs), old(bus).state()).3 is Ready
                ==> old(self).exec_phase == ExecPhase::Idle || old(self).exec_phase == ExecPhase::Read,
        ensures
            (*final(self), *final(regs), final(bus).state(), done)
                == old(self).read_cycle_spec::<B>(mode, op, *old(regs), old(bus).state()),
    {
        match self.tick_addressing_mode(mode, regs, bus) {
            AddrResult::InProgress => false,
            AddrResult::Ready(addr) => {
                if self.exec_phase == ExecPhase::Idle {
                    self.exec_phase = ExecPhase::Read;
                    false
                } else {
                    self.tmp_data = bus.cpu_bus_read(addr);
                    *regs = apply_read_op(op, *regs, self.tmp_data);
                    self.exec_phase = ExecPhase::Done;
                    true
                }
            },
            AddrResult::ReadyImmediate(_) => {
                *regs = apply_read_op(op, *regs, self.tmp_data);
                true
            },
        }
    }

    /// Runs one cycle of a store; see `write_cycle_spec`.
    pub fn exec_write_cycle<B: CpuBusInterface>(
        &mut self,
        mode: AddressingMode,
        op: Operation,
        regs: &mut Registers,
        bus: &mut B,
    ) -> (done: bool)
        requires
            addr_cycle_defined(*old(self), mode),
            mode != AddressingMode::Immediate,
            old(self).addr_cycle_spec::<B>(mode, *old(regs), old(bus).state()).3 is Ready
                ==> old(self).exec_phase == ExecPhase::Idle || old(self).exec_phase == ExecPhase::Write,
        ensures
            (*final(self), *final(regs), final(bus).state(), done)
                == old(self).write_cycle_spec::<B>(mode, op, *old(regs), old(bus).state()),
    {
        match self.tick_addressing_mode(mode, regs, bus) {
            AddrResult::Ready(addr) => {
                if self.exec_phase == ExecPhase::Idle {
                    self.exec_phase = ExecPhase::Write;
                    false
                } else {
                    self.tmp_data = store_value(op, *regs);
                    bus.cpu_bus_write(addr, self.tmp_data);
                    self.exec_phase = ExecPhase::Done;
                    true
                }
            },
            _ => false,
        }
    }

    /// Runs one cycle of a read-modify-write instruction; see
    /// `read_modify_write_cycle_spec`.
    pub fn exec_read_modify_write_cycle<B: CpuBusInterface>(
        &mut self,
        mode: AddressingMode,
        op: Operation,
        regs: &mut Registers,
        bus: &mut B,
    ) -> (done: bool)
        requires
            addr_cycle_defined(*old(self), mode),
            mode != AddressingMode::Immediate,
            old(self).addr_cycle_spec::<B>(mode, *old(regs), old(bus).state()).3 is Ready
                ==> old(self).exec_phase != ExecPhase::Done,
        ensures
            (*final(self), *final(regs), final(bus).state(), done)
                == old(self).read_modify_write_cycle_spec::<B>(mode, op, *old(regs), old(bus).state()),
    {
        match self.tick_addressing_mode(mode, regs, bus) {
            AddrResult::Ready(addr) => {
                if self.exec_phase == ExecPhase::Idle {
                    self.exec_phase = ExecPhase::Read;
                    false
                } else if self.exec_phase == ExecPhase::Read {
                    self.tmp_data = bus.cpu_bus_read(addr);
                    self.exec_phase = ExecPhase::Internal;
                    false
                } else if self.exec_phase == ExecPhase::Internal {
                    // The 6502 writes the unmodified byte back while it computes.
                    bus.cpu_bus_write(addr, self.tmp_data);
                    let (v, r) = apply_rmw_op(op, *regs, self.tmp_data);
                    self.tmp_data = v;
                    *regs = r;
                    self.exec_phase = ExecPhase::Write;
                    false
                } else {
                    bus.cpu_bus_write(addr, self.tmp_data);
                    self.exec_phase = ExecPhase::Done;
                    true
                }
            },
            _ => false,
        }
    }

    /// Runs one cycle of a branch; see `branch_cycle_spec`.
    pub fn exec_branch_cycle<B: CpuBusInterface>(
        &mut self,
        op: Operation,
        regs: &mut Registers,
        bus: &mut B,
    ) -> (done: bool)
        requires
            addr_cycle_defined(*old(self), AddressingMode::Relative),
            old(self).exec_phase != ExecPhase::Read,
        ensures
            (*final(self), *final(regs), final(bus).state(), done)
                == old(self).branch_cycle_spec::<B>(op, *old(regs), old(bus).state()),
    {
        match self.tick_addressing_mode(AddressingMode::Relative, regs, bus) {
            AddrResult::Ready(_) => {
                if self.exec_phase == ExecPhase::Idle {
                    if is_branch_taken(op, regs.status) {
                        self.exec_phase = ExecPhase::Internal;
                        false
                    } else {
                        self.exec_phase = ExecPhase::Done;
                        true
                    }
                } else if self.exec_phase == ExecPhase::Internal {
                    let offset: u16 = if self.tmp_data >= 128 {
                        self.tmp_data as u16 + 0xFF00
                    } else {
                        self.tmp_data as u16
                    };
                    let old_pc = regs.program_counter;
                    let new_pc = old_pc.wrapping_add(offset);
                    regs.program_counter = new_pc;
                    if (old_pc & 0xFF00) != (new_pc & 0xFF00) {
                        self.page_crossed = true;
                        self.exec_phase = ExecPhase::Write;
                        false
                    } else {
                        self.exec_phase = ExecPhase::Done;
                        true
                    }
                } else {
                    self.exec_phase = ExecPhase::Done;
                    true
                }
            },
            _ => false,
        }
    }
}

/// Reads the byte at the program counter and moves the counter past it.
pub fn consume_program_counter<B: CpuBusInterface>(regs: &mut Registers, bus: &mut B) -> (v: u8)
    ensures
        (v, *final(regs), final(bus).state()) == consume_pc::<B>(*old(regs), old(bus).state()),
{
    let v = bus.cpu_bus_read(regs.program_counter);
    regs.program_counter = regs.program_counter.wrapping_add(1);
    v
}

/// Indexed absolute addressing takes the two address bytes in its first two cycles and
/// forms the indexed address in the second. A read that stays in the base address's page
/// is then resolved; any other access, or a read that crosses a page, takes one more
/// cycle and is resolved in the third.
pub proof fn lemma_indexed_absolute_cycles<B: CpuBusInterface>(
    state: CpuCycleState,
    mode: AddressingMode,
    regs: Registers,
    bus: B::State,
)
    requires
        state.micro_cycle == 0,
        mode == AddressingMode::AbsoluteX || mode == AddressingMode::AbsoluteY,
    ensures
        ({
            let index = if mode == AddressingMode::AbsoluteX { regs.register_x } else { regs.register_y };
            let lo = consume_pc::<B>(regs, bus);
            let hi = consume_pc::<B>(lo.1, lo.2);
            let base = (lo.0 as u16) | ((hi.0 as u16) << 8u16);
            let addr = add16(base, index as u16);
            let crossed = (base & 0xFF00) != (addr & 0xFF00);
            let c1 = state.addr_cycle_spec::<B>(mode, regs, bus);
            let c2 = c1.0.addr_cycle_spec::<B>(mode, c1.1, c1.2);
            let c3 = c2.0.addr_cycle_spec::<B>(mode, c2.1, c2.2);
            &&& c1.3 == AddrResult::InProgress
            &&& c2.1 == hi.1
            &&& c2.0.tmp_addr == addr
            &&& c2.0.page_crossed == crossed
            &&& (state.access_type == AccessType::Read && !crossed ==> c2.3 == AddrResult::Ready(addr))
            &&& (!(state.access_type == AccessType::Read && !crossed) ==> c2.3 == AddrResult::InProgress
                && c3.3 == AddrResult::Ready(addr))
        }),
{
}

/// Branch timing: after the opcode, a branch not taken ends in the cycle that fetches its
/// offset; a taken branch takes one more cycle to reach its target, and another when the
/// target lies in a different page from the instruction that follows the branch.
pub proof fn lemma_branch_cycles<B: CpuBusInterface>(
    state: CpuCycleState,
    op: Operation,
    regs: Registers,
    bus: B::State,
)
    requires
        state.micro_cycle == 0,
        state.exec_phase == ExecPhase::Idle,
    ensures
        ({
            let next = add16(regs.program_counter, 1);
            let offset = read_byte::<B>(bus, regs.program_counter).0;
            let target = add16(next, branch_offset(offset));
            let c1 = state.branch_cycle_spec::<B>(op, regs, bus);
            let c2 = c1.0.branch_cycle_spec::<B>(op, c1.1, c1.2);
            let c3 = c2.0.branch_cycle_spec::<B>(op, c2.1, c2.2);
            &&& (!branch_taken(op, regs.status) ==> c1.3 && c1.1.program_counter == next)
            &&& (branch_taken(op, regs.status) ==> {
                &&& !c1.3
                &&& c2.1.program_counter == target
                &&& (c2.3 <==> (next & 0xFF00) == (target & 0xFF00))
                &&& (!c2.3 ==> c3.3 && c3.1.program_counter == target)
            })
        }),
{
}

} // verus!
