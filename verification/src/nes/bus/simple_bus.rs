use vstd::prelude::*;
use crate::nes::cpu::{CpuBusInterface, CPU};

verus! {

/// The byte at `addr` of a flat memory; addresses past its end read as 0.
pub open spec fn flat_read(s: Seq<u8>, addr: u16) -> u8 {
    if (addr as int) < s.len() {
        s[addr as int]
    } else {
        0
    }
}

/// A flat memory after `value` is written at `addr`; writes past its end are dropped.
pub open spec fn flat_write(s: Seq<u8>, addr: u16, value: u8) -> Seq<u8> {
    if (addr as int) < s.len() {
        s.update(addr as int, value)
    } else {
        s
    }
}

/// A flat memory: every address is plain RAM.
impl CpuBusInterface for Vec<u8> {
    type State = Seq<u8>;

    open spec fn state(&self) -> Seq<u8> {
        self@
    }

    open spec fn read_value(s: Seq<u8>, addr: u16) -> u8 {
        flat_read(s, addr)
    }

    open spec fn after_read(s: Seq<u8>, addr: u16) -> Seq<u8> {
        s
    }

    open spec fn after_write(s: Seq<u8>, addr: u16, value: u8) -> Seq<u8> {
        flat_write(s, addr, value)
    }

    fn cpu_bus_read(&mut self, addr: u16) -> (r: u8) {
        if (addr as usize) < self.len() {
            self[addr as usize]
        } else {
            0
        }
    }

    fn cpu_bus_write(&mut self, addr: u16, value: u8) {
        if (addr as usize) < self.len() {
            self.set(addr as usize, value);
        }
    }
}

/// On flat RAM, pulling from the stack gives back the byte just pushed and restores the
/// stack pointer; the memory keeps the pushed byte.
pub proof fn lemma_pop_undoes_push(regs: crate::nes::cpu::instruction_handlers::Registers, ram: Seq<u8>, v: u8)
    requires
        ram.len() == 0x10000,
    ensures
        crate::nes::cpu::instruction_handlers::pop_state::<Vec<u8>>(
            crate::nes::cpu::instruction_handlers::push_state::<Vec<u8>>((regs, ram), v),
        ) == (v, (regs, flat_write(ram, crate::nes::cpu::instruction_handlers::stack_addr(regs.stack_pointer), v))),
{
}

/// A CPU over 64 KiB of RAM, for running programs in isolation.
pub struct SimpleBus {
    pub cpu_ram: Vec<u8>,
    pub cpu: CPU,
    pub cycles: usize,
}

impl SimpleBus {
    /// 64 KiB of zeroed RAM holding `program` from address 0.
    pub fn new(program: Vec<u8>) -> (bus: SimpleBus)
        requires
            program.len() <= 0x10000,
        ensures
            bus.cpu_ram@.len() == 0x10000,
            forall|i: int| 0 <= i < program@.len() ==> bus.cpu_ram@[i] == program@[i],
            forall|i: int| program@.len() <= i < 0x10000 ==> bus.cpu_ram@[i] == 0,
            bus.cpu == CPU::new_spec(),
            bus.cycles == 0,
    {
        let mut cpu_ram: Vec<u8> = Vec::new();
        let mut i: usize = 0;
        while i < 0x10000
            invariant
                i <= 0x10000,
                cpu_ram@.len() == i,
                forall|j: int| 0 <= j < i && j < program@.len() ==> cpu_ram@[j] == program@[j],
                forall|j: int| program@.len() <= j < i ==> cpu_ram@[j] == 0,
            decreases 0x10000 - i,
        {
            if i < program.len() {
                cpu_ram.push(program[i]);
            } else {
                cpu_ram.push(0);
            }
            i = i + 1;
        }
        SimpleBus { cpu_ram, cpu: CPU::new(), cycles: 0 }
    }

    /// Resets the processor and starts it at address 0.
    pub fn reset(&mut self)
        ensures
            final(self).cpu_ram@ == old(self).cpu_ram@,
            final(self).cycles == 0,
            final(self).cpu.program_counter == 0,
            final(self).cpu.register_a == 0,
            final(self).cpu.register_x == 0,
            final(self).cpu.register_y == 0,
            final(self).cpu.stack_pointer == crate::nes::cpu::CPU_STACK_RESET,
            final(self).cpu.status.bits == crate::nes::cpu::processor::status_at_reset(),
            final(self).cpu.cycles == 0,
            !final(self).cpu.nmi_pending,
            !final(self).cpu.irq_pending,
            final(self).cpu.error.is_none(),
    {
        self.cpu.reset(&mut self.cpu_ram);
        self.cycles = 0;
        self.cpu.program_counter = 0x0000;
    }

    /// Runs one processor tick against the RAM: returns its cycles and whether it halted.
    pub fn tick(&mut self) -> (r: (u8, bool))
        ensures
            ({
                let t = old(self).cpu.tick_spec::<Vec<u8>>(old(self).cpu_ram@);
                &&& final(self).cpu == t.0
                &&& final(self).cpu_ram@ == t.1
                &&& r == (t.2.0, t.2.2)
                &&& final(self).cycles == crate::nes::cpu::processor::add_usize(old(self).cycles, t.2.0 as int)
            }),
    {
        let (tick_cycles, _, is_breaking) = self.cpu.tick(&mut self.cpu_ram);
        self.cycles = self.cycles.wrapping_add(tick_cycles as usize);
        (tick_cycles, is_breaking)
    }
}

impl CpuBusInterface for SimpleBus {
    type State = Seq<u8>;

    open spec fn state(&self) -> Seq<u8> {
        self.cpu_ram@
    }

    open spec fn read_value(s: Seq<u8>, addr: u16) -> u8 {
        flat_read(s, addr)
    }

    open spec fn after_read(s: Seq<u8>, addr: u16) -> Seq<u8> {
        s
    }

    open spec fn after_write(s: Seq<u8>, addr: u16, value: u8) -> Seq<u8> {
        flat_write(s, addr, value)
    }

    fn cpu_bus_read(&mut self, addr: u16) -> (r: u8) {
        self.cpu_ram.cpu_bus_read(addr)
    }

    fn cpu_bus_write(&mut self, addr: u16, value: u8) {
        self.cpu_ram.cpu_bus_write(addr, value)
    }
}

} // verus!
