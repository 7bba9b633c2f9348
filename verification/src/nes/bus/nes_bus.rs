use vstd::prelude::*;
use crate::cartridge::Cartridge;
use crate::controller::joypad::Joypad;
use crate::controller::NesController;
use crate::memory::filled;
use crate::nes::apu::{status_byte, APU};
use crate::nes::cpu::CPU;
use crate::nes::ppu::PPU;
use crate::nes::timing::{cpu_slot, cpu_slot_spec, nmi_countdown, CpuSlotAction, DmaMode, DmaState, OAM_DMA_DONE_CYCLES};

verus! {

pub const NES_CPU_RAM_SIZE: usize = 2048;
pub const NES_CPU_RAM_END: u16 = 0x1FFF;
pub const NES_PPU_REGISTERS_START: u16 = 0x2000;
pub const NES_PPU_REGISTERS_END: u16 = 0x3FFF;
pub const NES_CART_START: u16 = 0x4200;

/// The console's memory map: 2 KiB of RAM mirrored to $1FFF, the PPU registers mirrored
/// every 8 bytes to $3FFF, the APU registers, sprite DMA at $4014, the first controller at
/// $4016 and the cartridge from $4200. The processor, PPU and APU sit on it; a sprite DMA
/// written to $4014 is left for the system to run, with the page kept here.
pub struct NesBus<C: Cartridge> {
    pub cart: Option<C>,
    pub cpu_ram: Vec<u8>,
    pub cpu: CPU,
    pub ppu: PPU,
    pub apu: APU,
    /// An NMI counting down to delivery.
    pub nmi_scheduled: Option<u8>,
    /// The page that the pending sprite DMA copies.
    pub oam_dma_addr: u8,
    /// The last byte read: unmapped reads return it (open bus).
    pub last_cpu_read: u8,
    pub controller1: Joypad,
}

impl<C: Cartridge> NesBus<C> {
    pub open spec fn wf(&self) -> bool {
        &&& self.cpu_ram@.len() == NES_CPU_RAM_SIZE
        &&& self.ppu.wf()
        &&& self.apu.wf()
    }

    /// Whether a processor read of `addr` can be served: cartridge addresses need a byte of
    /// program memory there.
    pub open spec fn readable(&self, addr: u16) -> bool {
        addr >= NES_CART_START && self.cart.is_some() ==> self.cart.unwrap().prg_readable(addr)
    }

    /// A console without a cartridge: cleared RAM, and the processor, PPU and APU at
    /// power-up.
    pub fn new() -> (bus: NesBus<C>)
        ensures
            bus.wf(),
            bus.cart.is_none(),
            bus.cpu_ram@ == Seq::new(NES_CPU_RAM_SIZE as nat, |i: int| 0u8),
            bus.cpu == CPU::new_spec(),
            bus.ppu.at_power_up(),
            bus.apu.initial(),
            bus.nmi_scheduled.is_none(),
            bus.oam_dma_addr == 0,
            bus.last_cpu_read == 0,
            bus.controller1.buttons.bits == 0,
            bus.controller1.button_index == 0,
            !bus.controller1.strobe,
    {
        NesBus {
            cart: None,
            cpu_ram: filled(NES_CPU_RAM_SIZE, 0u8),
            cpu: CPU::new(),
            ppu: PPU::new(),
            apu: APU::new(),
            nmi_scheduled: None,
            oam_dma_addr: 0,
            last_cpu_read: 0,
            controller1: Joypad::new(),
        }
    }

    /// Clears RAM and the bus latches, takes a fresh controller, resets the PPU and the
    /// APU, and starts the processor at the reset vector ($FFFC, read from the cartridge).
    pub fn reset_components(&mut self)
        requires
            old(self).wf(),
            old(self).readable(0xFFFC),
            old(self).readable(0xFFFD),
        ensures
            final(self).wf(),
            final(self).cpu_ram@ == Seq::new(NES_CPU_RAM_SIZE as nat, |i: int| 0u8),
            final(self).nmi_scheduled.is_none(),
            final(self).oam_dma_addr == 0,
            final(self).controller1.buttons.bits == 0,
            final(self).controller1.button_index == 0,
            !final(self).controller1.strobe,
            final(self).ppu.at_power_up(),
            final(self).ppu.pattern_table == old(self).ppu.pattern_table,
            final(self).apu.initial(),
            final(self).cpu.register_a == 0,
            final(self).cpu.stack_pointer == crate::nes::cpu::CPU_STACK_RESET,
            final(self).cpu.rdy,
            !final(self).cpu.halt_scheduled,
            !final(self).cpu.nmi_pending,
            old(self).cart.is_none() ==> final(self).cpu.program_counter == 0,
            final(self).cart == old(self).cart,
    {
        self.cpu_ram = filled(NES_CPU_RAM_SIZE, 0u8);
        self.nmi_scheduled = None;
        self.oam_dma_addr = 0;
        self.last_cpu_read = 0;
        self.controller1 = Joypad::new();
        let lo = self.cart_read(0xFFFC);
        let hi = self.cart_read(0xFFFD);
        self.cpu.reset_with_vector((hi as u16) * 256 + (lo as u16));
        self.ppu.reset();
        self.apu.reset();
    }

    /// A console with `cart` inserted and reset.
    pub fn new_with_cartridge(cart: C) -> (bus: NesBus<C>)
        requires
            cart.prg_readable(0xFFFC),
            cart.prg_readable(0xFFFD),
        ensures
            bus.wf(),
            bus.cart == Some(cart),
    {
        let mut bus = NesBus::new();
        bus.insert_cartridge(cart);
        bus
    }

    /// Inserts `cart`, gives the PPU its character memory and mirroring, and resets the
    /// console.
    pub fn insert_cartridge(&mut self, cart: C)
        requires
            old(self).wf(),
            cart.prg_readable(0xFFFC),
            cart.prg_readable(0xFFFD),
        ensures
            final(self).wf(),
            final(self).cart == Some(cart),
            final(self).cpu_ram@ == Seq::new(NES_CPU_RAM_SIZE as nat, |i: int| 0u8),
            final(self).ppu.at_power_up(),
            final(self).apu.initial(),
            0 < cart.chr_view().len() <= 0x10000 ==> final(self).ppu.pattern_table@ == cart.chr_view(),
    {
        let chr = cart.get_chr_rom();
        self.ppu.mirroring = cart.mirroring();
        if 0 < chr.len() && chr.len() <= 0x10000 {
            self.ppu.load_pattern_table(chr, false);
        }
        self.cart = Some(cart);
        self.reset_components();
    }

    /// A read of cartridge space: program memory, or 0 without a cartridge.
    fn cart_read(&mut self, addr: u16) -> (r: u8)
        requires
            old(self).readable(addr),
            addr >= NES_CART_START,
        ensures
            old(self).cart.is_none() ==> r == 0,
            final(self).cart == old(self).cart,
            final(self).cpu_ram == old(self).cpu_ram,
            final(self).cpu == old(self).cpu,
            final(self).ppu == old(self).ppu,
            final(self).apu == old(self).apu,
            final(self).nmi_scheduled == old(self).nmi_scheduled,
            final(self).oam_dma_addr == old(self).oam_dma_addr,
            final(self).last_cpu_read == old(self).last_cpu_read,
            final(self).controller1 == old(self).controller1,
    {
        match &mut self.cart {
            Some(cart) => cart.prg_read(addr),
            None => 0,
        }
    }

    /// Counts a scheduled NMI down; at zero it reaches the processor.
    pub fn tick(&mut self)
        ensures
            final(self).nmi_scheduled == nmi_countdown_spec(old(self).nmi_scheduled).0,
            final(self).cpu.nmi_pending == (old(self).cpu.nmi_pending || nmi_countdown_spec(old(self).nmi_scheduled).1),
            final(self).cpu.program_counter == old(self).cpu.program_counter,
            final(self).cpu_ram == old(self).cpu_ram,
            final(self).ppu == old(self).ppu,
            final(self).apu == old(self).apu,
    {
        let (next, fire) = nmi_countdown(self.nmi_scheduled);
        self.nmi_scheduled = next;
        if fire {
            self.cpu.trigger_nmi();
        }
    }

    /// One CPU slot of the console's DMA logic: decides it with `cpu_slot` from the
    /// processor's ready line and the DMA page, sets the ready line, and performs a DMA
    /// copy (a processor-bus read of the page byte, written to sprite memory at the sprite
    /// address). Returns the new DMA state and the action; `TickCpu` leaves the processor
    /// tick to the caller.
    pub fn dma_slot(&mut self, dma: DmaState) -> (r: (DmaState, CpuSlotAction))
        requires
            old(self).wf(),
            dma.mode == DmaMode::Oam ==> dma.oam_transfer_cycles <= OAM_DMA_DONE_CYCLES,
            cpu_slot_spec(dma, old(self).cpu.rdy, old(self).oam_dma_addr).1 matches CpuSlotAction::CopyDmaByte { addr }
                ==> old(self).readable(addr),
        ensures
            final(self).wf(),
            ({
                let d = cpu_slot_spec(dma, old(self).cpu.rdy, old(self).oam_dma_addr);
                &&& r.0 == d.0
                &&& r.1 == d.1
                &&& final(self).cpu == (CPU { rdy: d.2, ..old(self).cpu })
                &&& (d.1 is CopyDmaByte && d.1->addr <= NES_CPU_RAM_END ==> {
                    &&& final(self).ppu.oam_data@ == old(self).ppu.oam_data@.update(
                        old(self).ppu.oam_addr as int, old(self).cpu_ram@[(d.1->addr % 0x800) as int])
                    &&& final(self).ppu.oam_addr == (old(self).ppu.oam_addr + 1) % 256
                })
                &&& (!(d.1 is CopyDmaByte) ==> final(self).ppu == old(self).ppu)
            }),
            r.0.mode == DmaMode::Oam ==> r.0.oam_transfer_cycles <= OAM_DMA_DONE_CYCLES,
            final(self).cpu_ram == old(self).cpu_ram,
            final(self).oam_dma_addr == old(self).oam_dma_addr,
            final(self).nmi_scheduled == old(self).nmi_scheduled,
    {
        let (next, action, rdy) = cpu_slot(dma, self.cpu.rdy, self.oam_dma_addr);
        match action {
            CpuSlotAction::CopyDmaByte { addr } => {
                let value = self.cpu_bus_read(addr);
                self.ppu.write_to_oam_data(value);
            },
            _ => {},
        }
        self.cpu.rdy = rdy;
        (next, action)
    }

    /// A processor read. RAM and the PPU registers are mirrored; $4015 is the APU status;
    /// $4016 the first controller; $4017 reads 0; the cartridge answers from $4200; other
    /// addresses return the last byte read. The byte read becomes the open-bus byte.
    pub fn cpu_bus_read(&mut self, addr: u16) -> (r: u8)
        requires
            old(self).wf(),
            old(self).readable(addr),
        ensures
            final(self).wf(),
            final(self).last_cpu_read == r,
            addr <= NES_CPU_RAM_END ==> r == old(self).cpu_ram@[(addr % 0x800) as int],
            NES_PPU_REGISTERS_START <= addr <= NES_PPU_REGISTERS_END && addr % 8 == 4
                ==> r == old(self).ppu.oam_data@[old(self).ppu.oam_addr as int],
            NES_PPU_REGISTERS_START <= addr <= NES_PPU_REGISTERS_END && addr % 8 == 2
                ==> r == (old(self).ppu.status_register.bits / 32) * 32 + old(self).ppu.last_byte_read % 32,
            addr == 0x4015 ==> r == status_byte(old(self).apu),
            addr == 0x4016 && old(self).controller1.button_index > 7 ==> r == 1,
            addr == 0x4016 && old(self).controller1.button_index <= 7
                ==> r == (old(self).controller1.buttons.bits >> old(self).controller1.button_index) & 1,
            addr == 0x4017 ==> r == 0,
            ((0x4000 <= addr <= 0x4014) || (0x4018 <= addr < NES_CART_START)) ==> r == old(self).last_cpu_read,
            addr >= NES_CART_START && old(self).cart.is_none() ==> r == 0,
            final(self).cpu_ram == old(self).cpu_ram,
            final(self).cpu == old(self).cpu,
            final(self).apu == old(self).apu,
            final(self).nmi_scheduled == old(self).nmi_scheduled,
            final(self).oam_dma_addr == old(self).oam_dma_addr,
            (addr <= NES_CPU_RAM_END || addr > NES_PPU_REGISTERS_END) ==> final(self).ppu == old(self).ppu,
            addr != 0x4016 ==> final(self).controller1 == old(self).controller1,
            old(self).cart.is_some() == final(self).cart.is_some(),
    {
        let value = if addr <= NES_CPU_RAM_END {
            self.cpu_ram[(addr % 0x800) as usize]
        } else if addr <= NES_PPU_REGISTERS_END {
            self.ppu.read_register(addr)
        } else if addr == 0x4015 {
            self.apu.read(addr)
        } else if addr == 0x4016 {
            self.controller1.read()
        } else if addr == 0x4017 {
            0
        } else if addr >= NES_CART_START {
            self.cart_read(addr)
        } else {
            self.last_cpu_read
        };
        self.last_cpu_read = value;
        value
    }

    /// A processor write. RAM and the PPU registers are mirrored; $4014 schedules a sprite
    /// DMA of page `value` and asks the processor to halt for it; $4016 strobes the first
    /// controller; $4000-$4013, $4015 and $4017 go to the APU; the cartridge takes writes
    /// from $4200; anything else is dropped.
    pub fn cpu_bus_write(&mut self, addr: u16, value: u8)
        requires
            old(self).wf(),
        ensures
            final(self).wf(),
            addr <= NES_CPU_RAM_END ==> final(self).cpu_ram@ == old(self).cpu_ram@.update((addr % 0x800) as int, value),
            addr > NES_CPU_RAM_END ==> final(self).cpu_ram == old(self).cpu_ram,
            NES_PPU_REGISTERS_START <= addr <= NES_PPU_REGISTERS_END && addr % 8 == 0
                ==> final(self).ppu.ctrl_register.bits == value,
            NES_PPU_REGISTERS_START <= addr <= NES_PPU_REGISTERS_END && addr % 8 == 1
                ==> final(self).ppu.mask_register.bits == value,
            NES_PPU_REGISTERS_START <= addr <= NES_PPU_REGISTERS_END && addr % 8 == 3
                ==> final(self).ppu.oam_addr == value,
            addr == 0x4014 ==> final(self).cpu == (CPU { halt_scheduled: true, ..old(self).cpu })
                && final(self).oam_dma_addr == value,
            addr != 0x4014 ==> final(self).cpu == old(self).cpu && final(self).oam_dma_addr == old(self).oam_dma_addr,
            addr == 0x4016 ==> final(self).controller1.strobe == (value % 2 == 1)
                && final(self).controller1.buttons == old(self).controller1.buttons,
            addr != 0x4016 ==> final(self).controller1 == old(self).controller1,
            ((0x4000 <= addr <= 0x4013) || addr == 0x4015 || addr == 0x4017)
                ==> final(self).apu == old(self).apu.write_spec(addr, value),
            !((0x4000 <= addr <= 0x4013) || addr == 0x4015 || addr == 0x4017) ==> final(self).apu == old(self).apu,
            (addr <= NES_CPU_RAM_END || addr > NES_PPU_REGISTERS_END) ==> final(self).ppu == old(self).ppu,
            addr < NES_CART_START ==> final(self).cart == old(self).cart,
            old(self).cart.is_some() == final(self).cart.is_some(),
            final(self).nmi_scheduled == old(self).nmi_scheduled,
            final(self).last_cpu_read == old(self).last_cpu_read,
    {
        if addr <= NES_CPU_RAM_END {
            self.cpu_ram.set((addr % 0x800) as usize, value);
        } else if addr <= NES_PPU_REGISTERS_END {
            self.ppu.write_register(addr, value);
        } else if addr == 0x4014 {
            self.cpu.halt_scheduled = true;
            self.oam_dma_addr = value;
        } else if addr == 0x4016 {
            self.controller1.write(value);
        } else if addr <= 0x4013 || addr == 0x4015 || addr == 0x4017 {
            self.apu.write(addr, value);
        } else if addr >= NES_CART_START {
            match &mut self.cart {
                Some(cart) => cart.prg_write(addr, value),
                None => {},
            }
        }
    }
}

/// What `nmi_countdown` returns.
pub open spec fn nmi_countdown_spec(scheduled: Option<u8>) -> (Option<u8>, bool) {
    match scheduled {
        Some(0u8) => (None, true),
        Some(n) => (Some((n - 1) as u8), false),
        None => (None, false),
    }
}

} // verus!
