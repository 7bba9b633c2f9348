use vstd::prelude::*;
use crate::cartridge::nrom::{prg_offset, NromCart};
use crate::cartridge::Cartridge;
use crate::controller::joypad::Joypad;
use crate::controller::NesController;
use crate::memory::filled;
use crate::nes::ppu::dot_clock::run_dots;
use crate::nes::ppu::{memory_read, PPU};
use std::marker::PhantomData;

verus! {

pub const CPU_RAM_SIZE: usize = 2048;
pub const CPU_RAM_END: u16 = 0x1FFF;
pub const PPU_REGISTERS_START: u16 = 0x2000;
pub const PPU_REGISTERS_END: u16 = 0x3FFF;
pub const CART_START: u16 = 0x8000;

/// Whether cartridge address `addr` holds a byte of `cart`'s program memory.
pub open spec fn cart_has(cart: NromCart, addr: u16) -> bool {
    addr >= 0x8000 && 0 <= prg_offset(addr, cart.prg_rom@.len()) < cart.prg_rom@.len()
}

/// The CPU's view of the console: 2 KiB of RAM mirrored to $1FFF, the PPU registers
/// mirrored every 8 bytes to $3FFF, sprite DMA at $4014, the first controller at $4016 and
/// the cartridge from $8000. Unmapped reads return the last byte fetched (open bus).
pub struct Bus<'call> {
    pub cart: NromCart,
    pub cpu_ram: Vec<u8>,
    pub cycles: usize,
    pub ppu: PPU,
    pub last_fetched_byte: u8,
    pub controller1: Joypad,
    pub nmi_interrupt: Option<u8>,
    pub frame_callback_lifetime: PhantomData<&'call ()>,
}

impl<'call> Bus<'call> {
    pub open spec fn wf(&self) -> bool {
        &&& self.cpu_ram@.len() == CPU_RAM_SIZE
        &&& self.ppu.wf()
        &&& self.cart.chr@.len() > 0
        &&& !self.ppu.nmi_raised
    }

    /// The byte that sprite DMA copies from address `addr`: RAM, cartridge memory, or the
    /// open-bus byte elsewhere.
    pub open spec fn dma_source(&self, addr: u16) -> u8 {
        if addr <= CPU_RAM_END {
            self.cpu_ram@[(addr % 0x800) as int]
        } else if cart_has(self.cart, addr) {
            self.cart.prg_rom@[prg_offset(addr, self.cart.prg_rom@.len())]
        } else {
            self.last_fetched_byte
        }
    }

    /// A console around `cartridge`, with cleared RAM and the PPU at power-up.
    /// `gameloop_callback` is not kept and never called (Verus takes no boxed `FnMut`
    /// field). The start of each frame is reported instead by the NMI status that
    /// `tick` records and `get_nmi_status` returns; callers run their frame work on it.
    pub fn new<F: FnMut(&PPU, &mut Joypad)>(cartridge: NromCart, gameloop_callback: F) -> (bus: Bus<'call>)
        requires
            0 < cartridge.chr@.len() <= 0x10000,
        ensures
            bus.wf(),
            bus.cart == cartridge,
            bus.cpu_ram@ == Seq::new(CPU_RAM_SIZE as nat, |i: int| 0u8),
            bus.cycles == 0,
            bus.last_fetched_byte == 0,
            bus.nmi_interrupt.is_none(),
            bus.ppu.mirroring == cartridge.mirroring,
            bus.ppu.pattern_table@ == cartridge.chr@,
            bus.ppu.ctrl_register.bits == 0,
            bus.ppu.oam_data@ == Seq::new(256, |i: int| 0u8),
    {
        let mut ppu = PPU::new();
        ppu.mirroring = cartridge.mirroring;
        ppu.load_pattern_table(cartridge.chr.clone(), cartridge.chr_is_ram);
        Bus {
            cart: cartridge,
            cpu_ram: filled(CPU_RAM_SIZE, 0u8),
            cycles: 0,
            ppu,
            last_fetched_byte: 0,
            controller1: Joypad::new(),
            nmi_interrupt: None,
            frame_callback_lifetime: PhantomData,
        }
    }

    /// A CPU read. Reads in the cartridge range need a byte of program memory there.
    pub fn fetch_byte(&mut self, addr: u16) -> (r: u8)
        requires
            old(self).wf(),
            addr >= CART_START ==> cart_has(old(self).cart, addr),
        ensures
            final(self).wf(),
            final(self).last_fetched_byte == r,
            addr <= CPU_RAM_END ==> r == old(self).cpu_ram@[(addr % 0x800) as int],
            addr >= CART_START ==> r == old(self).cart.prg_rom@[prg_offset(addr, old(self).cart.prg_rom@.len())],
            (0x4000 <= addr < CART_START && addr != 0x4016) ==> r == old(self).last_fetched_byte,
            PPU_REGISTERS_START <= addr <= PPU_REGISTERS_END && addr % 8 == 2 ==> r
                == (old(self).ppu.status_register.bits / 32) * 32 + old(self).ppu.last_byte_read % 32,
            PPU_REGISTERS_START <= addr <= PPU_REGISTERS_END && addr % 8 == 4 ==> r
                == old(self).ppu.oam_data@[old(self).ppu.oam_addr as int],
            PPU_REGISTERS_START <= addr <= PPU_REGISTERS_END && addr % 8 == 7
                ==> memory_read(old(self).ppu, final(self).ppu, r),
            PPU_REGISTERS_START <= addr <= PPU_REGISTERS_END && addr % 8 == 2
                ==> final(self).ppu.status_register.bits == old(self).ppu.status_register.bits % 128
                && final(self).ppu.scroll_register.w == (old(self).ppu.scroll_register.w
                    && old(self).ppu.status_register.bits < 128),
            (addr <= CPU_RAM_END || addr > PPU_REGISTERS_END) ==> final(self).ppu == old(self).ppu,
            PPU_REGISTERS_START <= addr <= PPU_REGISTERS_END && (addr % 8 == 0 || addr % 8 == 1
                || addr % 8 == 3 || addr % 8 == 5 || addr % 8 == 6) ==> r == old(self).ppu.last_byte_read,
            addr == 0x4016 && old(self).controller1.button_index > 7 ==> r == 1,
            addr == 0x4016 && old(self).controller1.button_index <= 7 ==> r
                == (old(self).controller1.buttons.bits >> old(self).controller1.button_index) & 1,
            final(self).cpu_ram == old(self).cpu_ram,
            final(self).cart == old(self).cart,
            final(self).cycles == old(self).cycles,
    {
        let value = if addr <= CPU_RAM_END {
            self.cpu_ram[(addr % 0x800) as usize]
        } else if addr <= PPU_REGISTERS_END {
            self.ppu.read_register(addr)
        } else if addr == 0x4016 {
            self.controller1.read()
        } else if addr >= CART_START {
            self.cart.prg_read(addr)
        } else {
            self.last_fetched_byte
        };
        self.last_fetched_byte = value;
        value
    }

    /// The byte sprite DMA reads from `addr`.
    fn dma_read(&self, addr: u16) -> (r: u8)
        requires
            self.wf(),
        ensures
            r == self.dma_source(addr),
    {
        if addr <= CPU_RAM_END {
            self.cpu_ram[(addr % 0x800) as usize]
        } else if addr >= CART_START {
            let offset = (addr - 0x8000) as usize;
            let offset = if self.cart.prg_rom.len() == 0x4000 { offset % 0x4000 } else { offset };
            if offset < self.cart.prg_rom.len() {
                self.cart.prg_rom[offset]
            } else {
                self.last_fetched_byte
            }
        } else {
            self.last_fetched_byte
        }
    }

    /// Sprite DMA: copies the 256 bytes of page `page` into sprite memory from the current
    /// sprite address on.
    pub fn oam_dma(&mut self, page: u8)
        requires
            old(self).wf(),
        ensures
            final(self).wf(),
            forall|k: int| 0 <= k < 256 ==> #[trigger] final(self).ppu.oam_data@[(old(self).ppu.oam_addr + k) % 256]
                == old(self).dma_source((page as int * 256 + k) as u16),
            final(self).ppu.oam_addr == old(self).ppu.oam_addr,
            final(self).cpu_ram == old(self).cpu_ram,
            final(self).cart == old(self).cart,
            final(self).last_fetched_byte == old(self).last_fetched_byte,
            final(self).cycles == old(self).cycles,
            final(self).controller1 == old(self).controller1,
            final(self).nmi_interrupt == old(self).nmi_interrupt,
    {
        let ghost start = *self;
        let mut i: u16 = 0;
        while i < 256
            invariant
                self.wf(),
                i <= 256,
                self.cpu_ram == start.cpu_ram,
                self.cart == start.cart,
                self.last_fetched_byte == start.last_fetched_byte,
                self.cycles == start.cycles,
                self.controller1 == start.controller1,
                self.nmi_interrupt == start.nmi_interrupt,
                self.ppu.oam_addr == (start.ppu.oam_addr + i) % 256,
                forall|k: int| 0 <= k < i ==> #[trigger] self.ppu.oam_data@[(start.ppu.oam_addr + k) % 256]
                    == start.dma_source((page as int * 256 + k) as u16),
            decreases 256 - i,
        {
            let src = (page as u16) * 256 + i;
            let byte = self.dma_read(src);
            let ghost before = self.ppu.oam_data@;
            self.ppu.write_to_oam_data(byte);
            proof {
                assert forall|k: int| 0 <= k < i + 1 implies #[trigger] self.ppu.oam_data@[(start.ppu.oam_addr + k) % 256]
                    == start.dma_source((page as int * 256 + k) as u16) by {
                    if k < i {
                        assert((start.ppu.oam_addr + k) % 256 != (start.ppu.oam_addr + i) % 256);
                    }
                }
            }
            i = i + 1;
        }
    }

    /// A CPU write. RAM and the PPU registers take it, $4014 starts sprite DMA, $4016 goes
    /// to the controller; program memory is read-only and other addresses ignore it.
    pub fn store_byte(&mut self, addr: u16, value: u8)
        requires
            old(self).wf(),
        ensures
            final(self).wf(),
            final(self).cpu_ram@ == ram_after_store(old(self).cpu_ram@, addr, value),
            addr <= CPU_RAM_END ==> final(self).cpu_ram@ == old(self).cpu_ram@.update((addr % 0x800) as int, value),
            addr > CPU_RAM_END ==> final(self).cpu_ram == old(self).cpu_ram,
            PPU_REGISTERS_START <= addr <= PPU_REGISTERS_END && addr % 8 == 0 ==> final(self).ppu.ctrl_register.bits == value,
            PPU_REGISTERS_START <= addr <= PPU_REGISTERS_END && addr % 8 == 1 ==> final(self).ppu.mask_register.bits == value,
            addr == 0x4014 ==> forall|k: int| 0 <= k < 256 ==> #[trigger] final(self).ppu.oam_data@[(old(self).ppu.oam_addr + k) % 256]
                == old(self).dma_source((value as int * 256 + k) as u16),
            PPU_REGISTERS_START <= addr <= PPU_REGISTERS_END && addr % 8 == 3 ==> final(self).ppu.oam_addr == value,
            PPU_REGISTERS_START <= addr <= PPU_REGISTERS_END && addr % 8 == 0 ==> final(self).ppu.instant_nmi_pending
                == (old(self).ppu.instant_nmi_pending || (old(self).ppu.ctrl_register.bits < 128 && value >= 128
                    && 241 <= old(self).ppu.scanline <= 260 && old(self).ppu.cycles > 0)),
            addr == 0x4016 ==> final(self).controller1.strobe == (value % 2 == 1),
            addr != 0x4016 ==> final(self).controller1 == old(self).controller1,
            (addr > PPU_REGISTERS_END && addr != 0x4014) ==> final(self).ppu == old(self).ppu,
            addr <= CPU_RAM_END ==> final(self).ppu == old(self).ppu,
            final(self).last_fetched_byte == old(self).last_fetched_byte,
            final(self).nmi_interrupt == old(self).nmi_interrupt,
            final(self).cart == old(self).cart,
            final(self).cycles == old(self).cycles,
    {
        if addr <= CPU_RAM_END {
            self.cpu_ram.set((addr % 0x800) as usize, value);
        } else if addr <= PPU_REGISTERS_END {
            self.ppu.write_register(addr, value);
        } else if addr == 0x4014 {
            self.oam_dma(value);
        } else if addr == 0x4016 {
            self.controller1.write(value);
        } else if addr >= CART_START {
            self.cart.prg_write(addr, value);
        }
    }

    /// Writes `data` from `addr` on, one byte after another.
    pub fn store_bytes(&mut self, addr: u16, data: &[u8])
        requires
            old(self).wf(),
        ensures
            final(self).wf(),
            addr as int + data@.len() <= 0x800 ==> forall|k: int| 0 <= k < data@.len()
                ==> #[trigger] final(self).cpu_ram@[addr + k] == data@[k],
            final(self).cart == old(self).cart,
    {
        let mut i: usize = 0;
        while i < data.len()
            invariant
                self.wf(),
                i <= data@.len(),
                self.cart == old(self).cart,
                addr as int + data@.len() <= 0x800 ==> forall|k: int| 0 <= k < i
                    ==> #[trigger] self.cpu_ram@[addr + k] == data@[k],
            decreases data@.len() - i,
        {
            let a = addr.wrapping_add(i as u16);
            proof {
                if addr as int + data@.len() <= 0x800 {
                    assert(a == addr + i);
                }
            }
            self.store_byte(a, data[i]);
            i = i + 1;
        }
    }

    /// Advances the console by `cycles` CPU cycles: the PPU runs three dots per cycle,
    /// ending where `run_dots` takes it, and an NMI raised on any of those dots is recorded.
    pub fn tick(&mut self, cycles: u8)
        requires
            old(self).wf(),
        ensures
            final(self).wf(),
            final(self).cycles == (old(self).cycles + cycles) % (usize::MAX as int + 1),
            ({
                let r = run_dots(old(self).ppu.clock_view(), old(self).ppu.ctrl_register.bits,
                    old(self).ppu.mask_register.bits, old(self).ppu.last_2002_read_scanline,
                    old(self).ppu.last_2002_read_dot, (3 * cycles) as nat);
                &&& final(self).ppu.clock_view() == r.0
                &&& final(self).nmi_interrupt == (if r.1 { Some(1u8) } else { old(self).nmi_interrupt })
            }),
            final(self).ppu.ctrl_register == old(self).ppu.ctrl_register,
            final(self).ppu.v_ram == old(self).ppu.v_ram,
            final(self).ppu.oam_data == old(self).ppu.oam_data,
            final(self).cpu_ram == old(self).cpu_ram,
            final(self).cart == old(self).cart,
            final(self).last_fetched_byte == old(self).last_fetched_byte,
    {
        let ghost start = self.ppu.clock_view();
        let ghost ctrl = self.ppu.ctrl_register.bits;
        let ghost mask = self.ppu.mask_register.bits;
        let ghost rs = self.ppu.last_2002_read_scanline;
        let ghost rd = self.ppu.last_2002_read_dot;
        let new_cycles = self.cycles.wrapping_add(cycles as usize);
        proof {
            let sum: int = old(self).cycles + cycles;
            let m: int = usize::MAX as int + 1;
            assert(sum % m == (if sum >= m { sum - m } else { sum })) by (nonlinear_arith)
                requires
                    0 <= sum < 2 * m,
                    m > 0,
            ;
        }
        assert(new_cycles == (old(self).cycles + cycles) % (usize::MAX as int + 1));
        self.cycles = new_cycles;
        let dots = cycles as u16 * 3;
        let mut i: u16 = 0;
        while i < dots
            invariant
                self.wf(),
                i <= dots,
                dots == 3 * cycles,
                self.cycles == (old(self).cycles + cycles) % (usize::MAX as int + 1),
                self.ppu.clock_view() == run_dots(start, ctrl, mask, rs, rd, i as nat).0,
                self.nmi_interrupt == (if run_dots(start, ctrl, mask, rs, rd, i as nat).1 {
                    Some(1u8)
                } else {
                    old(self).nmi_interrupt
                }),
                self.ppu.ctrl_register.bits == ctrl,
                self.ppu.ctrl_register == old(self).ppu.ctrl_register,
                self.ppu.mask_register.bits == mask,
                self.ppu.last_2002_read_scanline == rs,
                self.ppu.last_2002_read_dot == rd,
                self.ppu.v_ram == old(self).ppu.v_ram,
                self.ppu.oam_data == old(self).ppu.oam_data,
                self.cpu_ram == old(self).cpu_ram,
                self.cart == old(self).cart,
                self.last_fetched_byte == old(self).last_fetched_byte,
            decreases dots - i,
        {
            self.ppu.tick();
            if self.ppu.nmi_raised {
                self.nmi_interrupt = Some(1);
                self.ppu.nmi_raised = false;
            }
            i = i + 1;
        }
    }

    /// The pending NMI, if the PPU raised one.
    pub fn get_nmi_status(&self) -> (s: Option<u8>)
        ensures
            s == self.nmi_interrupt,
    {
        self.nmi_interrupt
    }
}

/// CPU RAM after the CPU stores `value` at `addr`: RAM addresses reach their cell modulo
/// 2 KiB, and stores elsewhere leave RAM as it was.
pub open spec fn ram_after_store(ram: Seq<u8>, addr: u16, value: u8) -> Seq<u8> {
    if addr <= CPU_RAM_END {
        ram.update((addr % 0x800) as int, value)
    } else {
        ram
    }
}

/// CPU RAM after a sequence of stores, in order.
pub open spec fn ram_after_stores(ram: Seq<u8>, stores: Seq<(u16, u8)>) -> Seq<u8>
    decreases stores.len(),
{
    if stores.len() == 0 {
        ram
    } else {
        ram_after_store(ram_after_stores(ram, stores.drop_last()), stores.last().0, stores.last().1)
    }
}

/// A byte stored in RAM reads back at every mirror of its address, whatever other stores
/// follow, as long as none of them reaches the same cell. Reads (`fetch_byte`) and time
/// (`tick`) leave RAM unchanged, so only stores can intervene.
pub proof fn lemma_ram_read_back(ram: Seq<u8>, a: u16, value: u8, stores: Seq<(u16, u8)>, b: u16)
    requires
        ram.len() == CPU_RAM_SIZE,
        a <= CPU_RAM_END,
        b <= CPU_RAM_END,
        a % 0x800 == b % 0x800,
        forall|i: int| 0 <= i < stores.len() ==> #[trigger] stores[i].0 > CPU_RAM_END
            || stores[i].0 % 0x800 != a % 0x800,
    ensures
        ram_after_stores(ram_after_store(ram, a, value), stores).len() == CPU_RAM_SIZE,
        ram_after_stores(ram_after_store(ram, a, value), stores)[(b % 0x800) as int] == value,
    decreases stores.len(),
{
    if stores.len() > 0 {
        let rest = stores.drop_last();
        assert forall|i: int| 0 <= i < rest.len() implies #[trigger] rest[i].0 > CPU_RAM_END
            || rest[i].0 % 0x800 != a % 0x800 by {
            assert(rest[i] == stores[i]);
        }
        lemma_ram_read_back(ram, a, value, rest, b);
        assert(stores.last() == stores[stores.len() - 1]);
    }
}

/// CPU RAM repeats every 2 KiB up to $1FFF: a byte stored at one address reads back at
/// every address that agrees with it in the low 11 bits, and no other RAM byte changes.
pub proof fn lemma_ram_mirrors(ram: Seq<u8>, a: u16, b: u16, value: u8)
    requires
        ram.len() == CPU_RAM_SIZE,
        a <= CPU_RAM_END,
        b <= CPU_RAM_END,
    ensures
        a % 0x800 == b % 0x800 ==> ram.update((a % 0x800) as int, value)[(b % 0x800) as int] == value,
        a % 0x800 != b % 0x800 ==> ram.update((a % 0x800) as int, value)[(b % 0x800) as int]
            == ram[(b % 0x800) as int],
{
}

} // verus!
