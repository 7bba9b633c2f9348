use vstd::prelude::*;
use super::{CpuBusInterface, CpuError, CpuMode, Flags, CPU_STACK_RESET};
use super::instruction_handlers::{
    execute_instruction, flag, handle_interrupt, interrupt_spec, read_byte, read_u16, read_word, step_spec,
    update_zero_and_negative_flags, zn, Registers,
};
use super::interrupts::{irq, irq_spec, nmi, nmi_spec};

verus! {

/// The 6502 core of the NES. The bus it runs against is handed to each call.
pub struct CPU {
    pub cycles: usize,
    pub cpu_mode: CpuMode,
    /// Cleared while a DMA transfer holds the processor.
    pub rdy: bool,
    /// Set by a write to $4014: the processor pauses for OAM DMA before its next instruction.
    pub halt_scheduled: bool,
    pub register_a: u8,
    pub register_x: u8,
    pub register_y: u8,
    pub stack_pointer: u8,
    pub status: Flags,
    pub program_counter: u16,
    pub nmi_pending: bool,
    pub irq_pending: bool,
    pub error: Option<CpuError>,
    pub stop: bool,
    /// When set, BRK stops the processor, as a test harness wants, instead of entering the
    /// interrupt handler.
    pub halt_on_brk: bool,
}

/// `a + b` on a machine word, wrapping.
pub open spec fn add_usize(a: usize, b: int) -> usize {
    if a + b > usize::MAX {
        (a + b - usize::MAX - 1) as usize
    } else {
        (a + b) as usize
    }
}

/// The status after power-up and reset: bits 1 and 5 set.
pub open spec fn status_at_reset() -> u8 {
    0b0010_0010
}

/// The bus state after `data` is written from `addr` on, one byte after another, the
/// address wrapping at $FFFF.
pub open spec fn bytes_written<B: CpuBusInterface>(s: B::State, addr: u16, data: Seq<u8>) -> B::State
    decreases data.len(),
{
    if data.len() == 0 {
        s
    } else {
        B::after_write(
            bytes_written::<B>(s, addr, data.drop_last()),
            ((addr + data.len() - 1) % 0x10000) as u16,
            data.last(),
        )
    }
}

impl CPU {
    pub open spec fn regs(&self) -> Registers {
        Registers {
            register_a: self.register_a,
            register_x: self.register_x,
            register_y: self.register_y,
            stack_pointer: self.stack_pointer,
            status: self.status.bits,
            program_counter: self.program_counter,
        }
    }

    pub open spec fn with_regs(self, r: Registers) -> CPU {
        CPU {
            register_a: r.register_a,
            register_x: r.register_x,
            register_y: r.register_y,
            stack_pointer: r.stack_pointer,
            status: Flags { bits: r.status },
            program_counter: r.program_counter,
            ..self
        }
    }

    /// One call of `tick`: a pending NMI, then a pending unmasked IRQ, then a scheduled DMA
    /// pause, and otherwise one instruction. Returns (cycles, instruction size, halted).
    pub open spec fn tick_spec<B: CpuBusInterface>(self, bus: B::State) -> (CPU, B::State, (u8, u8, bool)) {
        if self.nmi_pending {
            let s = interrupt_spec::<B>((self.regs(), bus), nmi_spec(), self.program_counter);
            (CPU { nmi_pending: false, cycles: add_usize(self.cycles, 7), ..self.with_regs(s.0) }, s.1, (7, 0, false))
        } else if self.irq_pending && !flag(self.status.bits, Flags::INTERRUPT_DISABLE) {
            let s = interrupt_spec::<B>((self.regs(), bus), irq_spec(), self.program_counter);
            (CPU { irq_pending: false, cycles: add_usize(self.cycles, 7), ..self.with_regs(s.0) }, s.1, (7, 0, false))
        } else if self.halt_scheduled {
            (CPU { rdy: false, halt_scheduled: false, ..self }, bus, (0, 0, false))
        } else {
            let st = step_spec::<B>(self.regs(), bus, self.halt_on_brk);
            let o = st.outcome;
            (
                CPU {
                    cycles: add_usize(self.cycles, o.cycles as int),
                    error: if o.halted { o.error } else { self.error },
                    stop: self.stop || o.halted,
                    ..self.with_regs(st.regs)
                },
                st.bus,
                (o.cycles, o.size, o.halted),
            )
        }
    }

    /// At most `n` ticks, stopping after the first that halts.
    pub open spec fn run_spec<B: CpuBusInterface>(self, bus: B::State, n: nat) -> (CPU, B::State, bool)
        decreases n,
    {
        if n == 0 {
            (self, bus, false)
        } else {
            let t = self.tick_spec::<B>(bus);
            if t.2.2 {
                (t.0, t.1, true)
            } else {
                t.0.run_spec::<B>(t.1, (n - 1) as nat)
            }
        }
    }

    /// The processor at power-up: registers zeroed, the stack pointer at $FF,
    /// status bits 1 and 5 set, nothing pending.
    pub open spec fn new_spec() -> CPU {
        CPU {
            cycles: 0,
            cpu_mode: CpuMode::Read,
            rdy: true,
            halt_scheduled: false,
            register_a: 0,
            register_x: 0,
            register_y: 0,
            stack_pointer: CPU_STACK_RESET,
            status: Flags { bits: status_at_reset() },
            program_counter: 0,
            nmi_pending: false,
            irq_pending: false,
            error: None,
            stop: false,
            halt_on_brk: false,
        }
    }

    pub fn new() -> (cpu: CPU)
        ensures
            cpu == CPU::new_spec(),
    {
        CPU {
            cycles: 0,
            cpu_mode: CpuMode::Read,
            rdy: true,
            halt_scheduled: false,
            register_a: 0,
            register_x: 0,
            register_y: 0,
            stack_pointer: CPU_STACK_RESET,
            status: Flags::from_bits_truncate(0b0010_0010),
            program_counter: 0,
            nmi_pending: false,
            irq_pending: false,
            error: None,
            stop: false,
            halt_on_brk: false,
        }
    }

    /// Starts at `vector` with the registers as after reset and nothing pending.
    pub fn reset_with_vector(&mut self, vector: u16)
        ensures
            final(self).program_counter == vector,
            final(self).register_a == 0,
            final(self).register_x == 0,
            final(self).register_y == 0,
            final(self).stack_pointer == CPU_STACK_RESET,
            final(self).status.bits == status_at_reset(),
            final(self).cycles == 0,
            final(self).rdy,
            !final(self).halt_scheduled,
            !final(self).nmi_pending,
            !final(self).irq_pending,
            final(self).error.is_none(),
            final(self).cpu_mode == old(self).cpu_mode,
            final(self).stop == old(self).stop,
            final(self).halt_on_brk == old(self).halt_on_brk,
    {
        self.program_counter = vector;
        self.cycles = 0;
        self.halt_scheduled = false;
        self.rdy = true;
        self.register_a = 0;
        self.register_x = 0;
        self.register_y = 0;
        self.stack_pointer = CPU_STACK_RESET;
        self.status = Flags::from_bits_truncate(0b0010_0010);
        // The PPU tells the processor when an NMI needs handling.
        self.nmi_pending = false;
        self.irq_pending = false;
        self.error = None;
    }

    /// Loads the program counter from the reset vector at $FFFC and clears everything else.
    pub fn reset<B: CpuBusInterface>(&mut self, bus: &mut B)
        ensures
            ({
                let v = read_word::<B>(old(bus).state(), 0xFFFC);
                &&& final(self).program_counter == v.0
                &&& final(bus).state() == v.1
            }),
            final(self).register_a == 0,
            final(self).register_x == 0,
            final(self).register_y == 0,
            final(self).stack_pointer == CPU_STACK_RESET,
            final(self).status.bits == status_at_reset(),
            final(self).cycles == 0,
            final(self).rdy,
            !final(self).halt_scheduled,
            !final(self).nmi_pending,
            !final(self).irq_pending,
            final(self).error.is_none(),
            final(self).cpu_mode == old(self).cpu_mode,
            final(self).stop == old(self).stop,
    {
        self.program_counter = read_u16(bus, 0xFFFC);
        self.cycles = 0;
        self.halt_scheduled = false;
        self.rdy = true;
        self.register_a = 0;
        self.register_x = 0;
        self.register_y = 0;
        self.stack_pointer = CPU_STACK_RESET;
        self.status = Flags::from_bits_truncate(0b0010_0010);
        // The PPU tells the processor when an NMI needs handling.
        self.nmi_pending = false;
        self.irq_pending = false;
        self.error = None;
    }

    /// The byte at `address` on `bus`.
    pub fn fetch_byte<B: CpuBusInterface>(&self, bus: &mut B, address: u16) -> (r: u8)
        ensures
            (r, final(bus).state()) == read_byte::<B>(old(bus).state(), address),
    {
        bus.cpu_bus_read(address)
    }

    /// The little-endian word at `address` and the byte after it (wrapping at $FFFF).
    pub fn fetch_u16<B: CpuBusInterface>(&self, bus: &mut B, address: u16) -> (r: u16)
        ensures
            (r, final(bus).state()) == read_word::<B>(old(bus).state(), address),
    {
        read_u16(bus, address)
    }

    /// Writes `value` at `address` on `bus`.
    pub fn store_byte<B: CpuBusInterface>(&self, bus: &mut B, address: u16, value: u8)
        ensures
            final(bus).state() == B::after_write(old(bus).state(), address, value),
    {
        bus.cpu_bus_write(address, value)
    }

    /// Writes `program` from `address` on, one byte after another (wrapping at $FFFF).
    pub fn load_program_at<B: CpuBusInterface>(&self, bus: &mut B, program: &[u8], address: u16)
        ensures
            final(bus).state() == bytes_written::<B>(old(bus).state(), address, program@),
    {
        let mut i: usize = 0;
        while i < program.len()
            invariant
                i <= program@.len(),
                bus.state() == bytes_written::<B>(old(bus).state(), address, program@.take(i as int)),
            decreases program@.len() - i,
        {
            let a = address.wrapping_add(i as u16);
            proof {
                assert(program@.take(i as int + 1).drop_last() =~= program@.take(i as int));
                assert(i as u16 == i % 0x10000) by (bit_vector);
            }
            bus.cpu_bus_write(a, program[i]);
            i = i + 1;
        }
        proof {
            assert(program@.take(program@.len() as int) =~= program@);
        }
    }

    /// Resets the registers with the program counter at $8000 and loads `program` there.
    pub fn load<B: CpuBusInterface>(&mut self, bus: &mut B, program: &[u8])
        ensures
            final(self).program_counter == 0x8000,
            final(self).register_a == 0,
            final(self).register_x == 0,
            final(self).register_y == 0,
            final(self).stack_pointer == CPU_STACK_RESET,
            final(self).status.bits == status_at_reset(),
            final(bus).state() == bytes_written::<B>(old(bus).state(), 0x8000, program@),
    {
        self.reset_with_vector(0x8000);
        self.load_program_at(bus, program, 0x8000);
    }

    /// Loads the program counter from the reset vector of the bus the processor runs on.
    pub fn connect_bus<B: CpuBusInterface>(&mut self, bus: &mut B)
        ensures
            ({
                let v = read_word::<B>(old(bus).state(), 0xFFFC);
                &&& *final(self) == CPU { program_counter: v.0, ..*old(self) }
                &&& final(bus).state() == v.1
            }),
    {
        self.program_counter = read_u16(bus, 0xFFFC);
    }

    /// Raises the non-maskable interrupt; it is serviced by the next tick.
    pub fn trigger_nmi(&mut self)
        ensures
            *final(self) == (CPU { nmi_pending: true, ..*old(self) }),
    {
        self.nmi_pending = true;
    }

    pub fn set_register_a(&mut self, value: u8)
        ensures
            *final(self) == (CPU { register_a: value, status: Flags { bits: zn(old(self).status.bits, value) }, ..*old(self) }),
    {
        self.register_a = value;
        self.status = Flags { bits: update_zero_and_negative_flags(self.status.bits, value) };
    }

    pub fn set_register_x(&mut self, value: u8)
        ensures
            *final(self) == (CPU { register_x: value, status: Flags { bits: zn(old(self).status.bits, value) }, ..*old(self) }),
    {
        self.register_x = value;
        self.status = Flags { bits: update_zero_and_negative_flags(self.status.bits, value) };
    }

    pub fn set_register_y(&mut self, value: u8)
        ensures
            *final(self) == (CPU { register_y: value, status: Flags { bits: zn(old(self).status.bits, value) }, ..*old(self) }),
    {
        self.register_y = value;
        self.status = Flags { bits: update_zero_and_negative_flags(self.status.bits, value) };
    }

    pub fn set_program_counter(&mut self, address: u16)
        ensures
            *final(self) == (CPU { program_counter: address, ..*old(self) }),
    {
        self.program_counter = address;
    }

    fn load_registers(&mut self, r: Registers)
        ensures
            *final(self) == old(self).with_regs(r),
    {
        self.register_a = r.register_a;
        self.register_x = r.register_x;
        self.register_y = r.register_y;
        self.stack_pointer = r.stack_pointer;
        self.status = Flags { bits: r.status };
        self.program_counter = r.program_counter;
    }

    fn registers(&self) -> (r: Registers)
        ensures
            r == self.regs(),
    {
        Registers {
            register_a: self.register_a,
            register_x: self.register_x,
            register_y: self.register_y,
            stack_pointer: self.stack_pointer,
            status: self.status.bits,
            program_counter: self.program_counter,
        }
    }

    /// Services a pending interrupt, pauses for a scheduled DMA, or runs one instruction.
    /// Returns (cycles, instruction size, halted).
    pub fn tick<B: CpuBusInterface>(&mut self, bus: &mut B) -> (r: (u8, u8, bool))
        ensures
            (*final(self), final(bus).state(), r) == old(self).tick_spec::<B>(old(bus).state()),
    {
        if self.nmi_pending {
            self.nmi_pending = false;
            let mut regs = self.registers();
            let ret = self.program_counter;
            handle_interrupt(&mut regs, bus, nmi(), ret);
            self.load_registers(regs);
            self.cycles = self.cycles.wrapping_add(7);
            return (7, 0, false);
        }
        if self.irq_pending && !self.status.contains(Flags::INTERRUPT_DISABLE) {
            self.irq_pending = false;
            let mut regs = self.registers();
            let ret = self.program_counter;
            handle_interrupt(&mut regs, bus, irq(), ret);
            self.load_registers(regs);
            self.cycles = self.cycles.wrapping_add(7);
            return (7, 0, false);
        }
        // A DMA pauses the processor before its next instruction.
        if self.halt_scheduled {
            self.rdy = false;
            self.halt_scheduled = false;
            return (0, 0, false);
        }
        let mut regs = self.registers();
        let out = execute_instruction(&mut regs, bus, self.halt_on_brk);
        self.load_registers(regs);
        self.cycles = self.cycles.wrapping_add(out.cycles as usize);
        if out.halted {
            self.error = out.error;
            self.stop = true;
        }
        (out.cycles, out.size, out.halted)
    }

    /// Ticks until an instruction halts the processor, at most `max_ticks` times.
    /// Returns whether it halted.
    pub fn run<B: CpuBusInterface>(&mut self, bus: &mut B, max_ticks: u64) -> (halted: bool)
        ensures
            (*final(self), final(bus).state(), halted) == old(self).run_spec::<B>(old(bus).state(), max_ticks as nat),
    {
        let mut i: u64 = 0;
        while i < max_ticks
            invariant
                i <= max_ticks,
                old(self).run_spec::<B>(old(bus).state(), max_ticks as nat)
                    == self.run_spec::<B>(bus.state(), (max_ticks - i) as nat),
            decreases max_ticks - i,
        {
            let (_, _, should_break) = self.tick(bus);
            if should_break {
                return true;
            }
            i = i + 1;
        }
        false
    }
}

} // verus!
