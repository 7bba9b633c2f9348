use vstd::prelude::*;

pub mod dmc_channel;
pub mod noise_channel;
pub mod pulse_channel;
pub mod units;

pub use crate::apu::triangle_channel;
use crate::apu::frame_counter::{frame_step, step_frame_counter, FrameStep};
use crate::apu::units::length_counter::LengthCounter;
use dmc_channel::DmcChannel;
use noise_channel::NoiseChannel;
use pulse_channel::PulseChannel;
use triangle_channel::TriangleChannel;

verus! {

#[derive(Clone, Copy, Debug, PartialEq, Eq, Structural)]
pub enum ApuError {
    InvalidRegisterRead(u16),
    InvalidRegisterWrite(u16),
}

/// The audio processing unit of the NES.
#[derive(Clone, Copy)]
pub struct APU {
    pub pulse1: PulseChannel,
    pub pulse2: PulseChannel,
    pub triangle: TriangleChannel,
    pub noise: NoiseChannel,
    pub dmc: DmcChannel,
    pub mute_pulse1: bool,
    pub mute_pulse2: bool,
    pub mute_triangle: bool,
    pub mute_noise: bool,
    pub mute_dmc: bool,
    pub enable_dmc: bool,
    pub enable_noise: bool,
    pub enable_triangle: bool,
    pub enable_pulse2: bool,
    pub enable_pulse1: bool,
    pub master_sequence_mode: bool,
    pub frame_clock_counter: u8,
    pub clock_counter: u32,
    pub irq_disable: bool,
    pub dmc_interrupt: bool,
    pub frame_interrupt: bool,
    pub error: Option<ApuError>,
}

/// The byte a read of $4015 returns: DMC and frame interrupts in bits 7 and 6, and which
/// of noise, triangle, pulse 2 and pulse 1 are still sounding in bits 3 to 0.
pub open spec fn status_byte(apu: APU) -> u8 {
    ((if apu.dmc_interrupt { 0b1000_0000int } else { 0 })
        + (if apu.frame_interrupt { 0b0100_0000int } else { 0 })
        + (if apu.noise.length_counter.value > 0 { 0b1000int } else { 0 })
        + (if apu.triangle.length_counter.value > 0 { 0b0100int } else { 0 })
        + (if apu.pulse2.length_counter.value > 0 { 0b0010int } else { 0 })
        + (if apu.pulse1.length_counter.value > 0 { 0b0001int } else { 0 })) as u8
}

/// A pulse channel after a write to its register `reg` (0 to 3).
pub open spec fn pulse_after_write(p: PulseChannel, reg: u16, value: u8) -> PulseChannel {
    if reg == 0 {
        p.write_4000_spec(value)
    } else if reg == 1 {
        p.write_4001_spec(value)
    } else if reg == 2 {
        p.write_4002_spec(value)
    } else {
        p.write_4003_spec(value)
    }
}

/// The triangle channel after a write to $4008, $400A or $400B.
pub open spec fn triangle_after_write(t: TriangleChannel, addr: u16, value: u8) -> TriangleChannel {
    if addr == 0x4008 {
        t.write_4008_spec(value)
    } else if addr == 0x400A {
        t.write_400a_spec(value)
    } else {
        t.write_400b_spec(value)
    }
}

/// The noise channel after a write to $400C, $400E or $400F.
pub open spec fn noise_after_write(n: NoiseChannel, addr: u16, value: u8) -> NoiseChannel {
    if addr == 0x400C {
        n.write_400c_spec(value)
    } else if addr == 0x400E {
        n.write_400e_spec(value)
    } else {
        n.write_400f_spec(value)
    }
}

/// The DMC channel after a write to one of $4010-$4013.
pub open spec fn dmc_after_write(d: DmcChannel, addr: u16, value: u8) -> DmcChannel {
    if addr == 0x4010 {
        d.write_4010_spec(value)
    } else if addr == 0x4011 {
        d.write_4011_spec(value)
    } else if addr == 0x4012 {
        d.write_4012_spec(value)
    } else {
        d.write_4013_spec(value)
    }
}

impl APU {
    pub open spec fn wf(self) -> bool {
        self.pulse1.wf() && self.pulse2.wf() && self.triangle.wf()
    }

    /// The APU at power-up and after reset.
    pub open spec fn initial(self) -> bool {
        &&& self.wf()
        &&& self.pulse1 == PulseChannel::new_spec(true)
        &&& self.pulse2 == PulseChannel::new_spec(false)
        &&& self.triangle == TriangleChannel::new_spec()
        &&& self.noise == NoiseChannel::new_spec()
        &&& self.dmc == DmcChannel::new_spec()
        &&& !self.mute_pulse1 && !self.mute_pulse2 && !self.mute_triangle && !self.mute_noise && !self.mute_dmc
        &&& !self.enable_dmc && !self.enable_noise && !self.enable_triangle
        &&& !self.enable_pulse2 && !self.enable_pulse1
        &&& !self.master_sequence_mode
        &&& self.frame_clock_counter == 0
        &&& self.clock_counter == 0
        &&& !self.irq_disable && !self.dmc_interrupt && !self.frame_interrupt
        &&& self.error.is_none()
    }

    /// The APU with its channels clocked once, with the quarter- and half-frame signals given;
    /// the triangle steps with the quarter-frame signal only.
    pub open spec fn channels_clocked(self, quarter_frame_clock: bool, half_frame_clock: bool) -> APU {
        APU {
            pulse1: self.pulse1.clocked(quarter_frame_clock, half_frame_clock),
            pulse2: self.pulse2.clocked(quarter_frame_clock, half_frame_clock),
            noise: self.noise.clocked(quarter_frame_clock, half_frame_clock),
            triangle: self.triangle.clocked(quarter_frame_clock),
            ..self
        }
    }

    /// The APU after a CPU cycle numbered `cpu_cycles`: on even cycles the frame counter
    /// steps and the pulse and noise channels clock; the triangle clocks on every cycle.
    pub open spec fn clocked(self, cpu_cycles: usize) -> APU {
        if cpu_cycles % 2 == 0 {
            let f = frame_step(self.clock_counter, self.master_sequence_mode, self.irq_disable);
            APU { clock_counter: f.counter, ..self.channels_clocked(f.quarter, f.half) }
        } else {
            APU { triangle: self.triangle.clocked(false), ..self }
        }
    }

    /// The APU after a CPU write of `value` to `addr`: $4000-$4013 go to the channels,
    /// $4015 enables them, $4017 sets up the frame sequencer; any other address is an error.
    pub open spec fn write_spec(self, addr: u16, value: u8) -> APU {
        if 0x4000 <= addr <= 0x4007 {
            self.pulse_register_written(addr, value)
        } else if 0x4008 <= addr <= 0x4013 {
            self.channel_register_written(addr, value)
        } else if addr == 0x4015 {
            self.status_written(value)
        } else if addr == 0x4017 {
            self.frame_counter_written(value)
        } else {
            APU { error: Some(ApuError::InvalidRegisterWrite(addr)), ..self }
        }
    }

    /// A write to the registers of the two pulse channels, $4000-$4003 and $4004-$4007.
    #[verifier::opaque]
    pub open spec fn pulse_register_written(self, addr: u16, value: u8) -> APU {
        APU {
            pulse1: if addr < 0x4004 { pulse_after_write(self.pulse1, (addr - 0x4000) as u16, value) } else { self.pulse1 },
            pulse2: if addr < 0x4004 { self.pulse2 } else { pulse_after_write(self.pulse2, (addr - 0x4004) as u16, value) },
            ..self
        }
    }

    /// A write to the triangle ($4008-$400B), noise ($400C-$400F) or DMC ($4010-$4013)
    /// registers; $4009 and $400D are unused.
    #[verifier::opaque]
    pub open spec fn channel_register_written(self, addr: u16, value: u8) -> APU {
        APU {
            triangle: if addr == 0x4008 || addr == 0x400A || addr == 0x400B {
                triangle_after_write(self.triangle, addr, value)
            } else {
                self.triangle
            },
            noise: if addr == 0x400C || addr == 0x400E || addr == 0x400F {
                noise_after_write(self.noise, addr, value)
            } else {
                self.noise
            },
            dmc: if 0x4010 <= addr <= 0x4013 { dmc_after_write(self.dmc, addr, value) } else { self.dmc },
            ..self
        }
    }

    /// $4015 `---D NT21`: the enable flags; each channel whose flag is clear is silenced.
    #[verifier::opaque]
    pub open spec fn status_written(self, value: u8) -> APU {
        let silenced = LengthCounter { enabled: false, halted: true, value: 0 };
        APU {
            enable_dmc: (value / 16) % 2 == 1,
            enable_noise: (value / 8) % 2 == 1,
            enable_triangle: (value / 4) % 2 == 1,
            enable_pulse2: (value / 2) % 2 == 1,
            enable_pulse1: value % 2 == 1,
            pulse1: if value % 2 == 1 { self.pulse1 } else { PulseChannel { length_counter: silenced, ..self.pulse1 } },
            pulse2: if (value / 2) % 2 == 1 { self.pulse2 } else { PulseChannel { length_counter: silenced, ..self.pulse2 } },
            triangle: if (value / 4) % 2 == 1 { self.triangle } else { TriangleChannel { length_counter: silenced, ..self.triangle } },
            noise: if (value / 8) % 2 == 1 { self.noise } else { NoiseChannel { length_counter: silenced, ..self.noise } },
            ..self
        }
    }

    /// $4017 `MI-- ----`: five-step mode and IRQ inhibit; five-step mode clocks the pulse
    /// and triangle channels at once.
    #[verifier::opaque]
    pub open spec fn frame_counter_written(self, value: u8) -> APU {
        let five_step = value >= 128;
        APU {
            master_sequence_mode: five_step,
            irq_disable: (value / 64) % 2 == 1,
            frame_clock_counter: 0,
            pulse1: if five_step { self.pulse1.clocked(true, true) } else { self.pulse1 },
            pulse2: if five_step { self.pulse2.clocked(true, true) } else { self.pulse2 },
            triangle: if five_step { self.triangle.clocked(true) } else { self.triangle },
            ..self
        }
    }

    pub fn new() -> (apu: APU)
        ensures
            apu.initial(),
    {
        APU {
            pulse1: PulseChannel::new(true),
            pulse2: PulseChannel::new(false),
            triangle: TriangleChannel::new(),
            noise: NoiseChannel::new(),
            dmc: DmcChannel::new(),
            mute_pulse1: false,
            mute_pulse2: false,
            mute_triangle: false,
            mute_noise: false,
            mute_dmc: false,
            enable_dmc: false,
            enable_noise: false,
            enable_triangle: false,
            enable_pulse2: false,
            enable_pulse1: false,
            master_sequence_mode: false,
            frame_clock_counter: 0,
            clock_counter: 0,
            irq_disable: false,
            dmc_interrupt: false,
            frame_interrupt: false,
            error: None,
        }
    }

    pub fn reset(&mut self)
        ensures
            final(self).initial(),
    {
        *self = APU::new();
    }

    /// A CPU read of an APU register: only $4015 (status) is readable.
    pub fn read(&mut self, addr: u16) -> (v: u8)
        ensures
            addr == 0x4015 ==> v == status_byte(*old(self)) && *final(self) == *old(self),
            addr != 0x4015 ==> v == 0 && *final(self) == (APU {
                error: Some(ApuError::InvalidRegisterRead(addr)),
                ..*old(self)
            }),
    {
        if addr == 0x4015 {
            let mut output: u8 = 0;
            if self.dmc_interrupt {
                output = output + 0b1000_0000;
            }
            if self.frame_interrupt {
                output = output + 0b0100_0000;
            }
            if self.noise.is_enabled() {
                output = output + 0b0000_1000;
            }
            if self.triangle.is_enabled() {
                output = output + 0b0000_0100;
            }
            if self.pulse2.is_enabled() {
                output = output + 0b0000_0010;
            }
            if self.pulse1.is_enabled() {
                output = output + 0b0000_0001;
            }
            output
        } else {
            self.error = Some(ApuError::InvalidRegisterRead(addr));
            0
        }
    }

    /// A CPU write to an APU register; other addresses record an error.
    pub fn write(&mut self, addr: u16, value: u8)
        requires
            old(self).wf(),
        ensures
            final(self).wf(),
            *final(self) == old(self).write_spec(addr, value),
    {
        proof {
            lemma_write_keeps_wf(*self, addr, value);
        }
        let next = if 0x4000 <= addr && addr <= 0x4007 {
            self.with_pulse_register(addr, value)
        } else if 0x4008 <= addr && addr <= 0x4013 {
            self.with_channel_register(addr, value)
        } else if addr == 0x4015 {
            self.with_status(value)
        } else if addr == 0x4017 {
            self.with_frame_counter(value)
        } else {
            APU { error: Some(ApuError::InvalidRegisterWrite(addr)), ..*self }
        };
        *self = next;
    }

    fn with_pulse_register(&self, addr: u16, value: u8) -> (a: APU)
        requires
            self.wf(),
            0x4000 <= addr <= 0x4007,
        ensures
            a == self.pulse_register_written(addr, value),
    {
        reveal(APU::pulse_register_written);
        let pulse1 = if addr < 0x4004 { pulse_written(self.pulse1, addr - 0x4000, value) } else { self.pulse1 };
        let pulse2 = if addr < 0x4004 { self.pulse2 } else { pulse_written(self.pulse2, addr - 0x4004, value) };
        APU { pulse1, pulse2, ..*self }
    }

    fn with_channel_register(&self, addr: u16, value: u8) -> (a: APU)
        requires
            self.wf(),
            0x4008 <= addr <= 0x4013,
        ensures
            a == self.channel_register_written(addr, value),
    {
        reveal(APU::channel_register_written);
        // $4009 and $400D are unused.
        let triangle = if addr == 0x4008 || addr == 0x400A || addr == 0x400B {
            triangle_written(self.triangle, addr, value)
        } else {
            self.triangle
        };
        let noise = if addr == 0x400C || addr == 0x400E || addr == 0x400F {
            noise_written(self.noise, addr, value)
        } else {
            self.noise
        };
        let dmc = if 0x4010 <= addr && addr <= 0x4013 {
            dmc_written(self.dmc, addr, value)
        } else {
            self.dmc
        };
        APU { triangle, noise, dmc, ..*self }
    }

    /// $4015 `---D NT21`: enables the channels; a disabled channel is silenced.
    fn with_status(&self, value: u8) -> (a: APU)
        ensures
            a == self.status_written(value),
    {
        reveal(APU::status_written);
        let enable_pulse1 = value % 2 == 1;
        let enable_pulse2 = (value / 2) % 2 == 1;
        let enable_triangle = (value / 4) % 2 == 1;
        let enable_noise = (value / 8) % 2 == 1;
        APU {
            enable_dmc: (value / 16) % 2 == 1,
            enable_noise,
            enable_triangle,
            enable_pulse2,
            enable_pulse1,
            pulse1: if enable_pulse1 { self.pulse1 } else { silenced_pulse(self.pulse1) },
            pulse2: if enable_pulse2 { self.pulse2 } else { silenced_pulse(self.pulse2) },
            triangle: if enable_triangle { self.triangle } else { silenced_triangle(self.triangle) },
            noise: if enable_noise { self.noise } else { silenced_noise(self.noise) },
            ..*self
        }
    }

    /// $4017 `MI-- ----`: sequencer mode and IRQ inhibit; five-step mode clocks the channels
    /// at once.
    fn with_frame_counter(&self, value: u8) -> (a: APU)
        requires
            self.wf(),
        ensures
            a == self.frame_counter_written(value),
    {
        reveal(APU::frame_counter_written);
        let five_step = value >= 0b1000_0000;
        APU {
            master_sequence_mode: five_step,
            irq_disable: (value / 64) % 2 == 1,
            frame_clock_counter: 0,
            pulse1: if five_step { clocked_pulse(self.pulse1, true, true) } else { self.pulse1 },
            pulse2: if five_step { clocked_pulse(self.pulse2, true, true) } else { self.pulse2 },
            triangle: if five_step { clocked_triangle(self.triangle, true) } else { self.triangle },
            ..*self
        }
    }

    /// Clocks the APU for the CPU cycle numbered `cpu_cycles`; returns whether the frame IRQ
    /// is raised.
    pub fn clock(&mut self, cpu_cycles: usize) -> (irq: bool)
        requires
            old(self).wf(),
            old(self).clock_counter < u32::MAX,
        ensures
            final(self).wf(),
            *final(self) == old(self).clocked(cpu_cycles),
            irq == (cpu_cycles % 2 == 0 && frame_step(
                old(self).clock_counter,
                old(self).master_sequence_mode,
                old(self).irq_disable,
            ).irq),
    {
        proof {
            lemma_clock_keeps_wf(*self, cpu_cycles);
        }
        if cpu_cycles % 2 == 0 {
            self.clock_even_cycle(cpu_cycles)
        } else {
            self.clock_odd_cycle(cpu_cycles);
            false
        }
    }

    fn clock_even_cycle(&mut self, cpu_cycles: usize) -> (irq: bool)
        requires
            old(self).wf(),
            old(self).clock_counter < u32::MAX,
            cpu_cycles % 2 == 0,
        ensures
            *final(self) == old(self).clocked(cpu_cycles),
            irq == frame_step(old(self).clock_counter, old(self).master_sequence_mode, old(self).irq_disable).irq,
    {
        let ghost start = *self;
        let f = step_frame_counter(self.clock_counter, self.master_sequence_mode, self.irq_disable);
        let irq = f.irq;
        self.clock_frame(&f);
        proof {
            lemma_even_cycle_clocks_frame(start, *self, f, cpu_cycles);
        }
        irq
    }

    fn clock_odd_cycle(&mut self, cpu_cycles: usize)
        requires
            old(self).wf(),
            cpu_cycles % 2 == 1,
        ensures
            *final(self) == old(self).clocked(cpu_cycles),
    {
        self.triangle = clocked_triangle(self.triangle, false);
    }

    fn clock_frame(&mut self, f: &FrameStep)
        requires
            old(self).wf(),
        ensures
            *final(self) == (APU { clock_counter: f.counter, ..old(self).channels_clocked(f.quarter, f.half) }),
    {
        self.clock_channels(f.quarter, f.half);
        self.clock_counter = f.counter;
    }

    fn clock_channels(&mut self, quarter_frame_clock: bool, half_frame_clock: bool)
        requires
            old(self).wf(),
        ensures
            *final(self) == old(self).channels_clocked(quarter_frame_clock, half_frame_clock),
    {
        self.pulse1 = clocked_pulse(self.pulse1, quarter_frame_clock, half_frame_clock);
        self.pulse2 = clocked_pulse(self.pulse2, quarter_frame_clock, half_frame_clock);
        self.noise = clocked_noise(self.noise, quarter_frame_clock, half_frame_clock);
        self.triangle = clocked_triangle(self.triangle, quarter_frame_clock);
    }
}

fn pulse_written(p: PulseChannel, reg: u16, value: u8) -> (r: PulseChannel)
    requires
        p.wf(),
        reg < 4,
    ensures
        r.wf(),
        r == pulse_after_write(p, reg, value),
{
    let mut c = p;
    if reg == 0 {
        c.write_4000(value);
    } else if reg == 1 {
        c.write_4001(value);
    } else if reg == 2 {
        c.write_4002(value);
    } else {
        c.write_4003(value);
    }
    c
}

fn triangle_written(t: TriangleChannel, addr: u16, value: u8) -> (r: TriangleChannel)
    requires
        t.wf(),
        addr == 0x4008 || addr == 0x400A || addr == 0x400B,
    ensures
        r.wf(),
        r == triangle_after_write(t, addr, value),
{
    let mut c = t;
    if addr == 0x4008 {
        c.write_4008(value);
    } else if addr == 0x400A {
        c.write_400a(value);
    } else {
        c.write_400b(value);
    }
    c
}

fn noise_written(n: NoiseChannel, addr: u16, value: u8) -> (r: NoiseChannel)
    requires
        addr == 0x400C || addr == 0x400E || addr == 0x400F,
    ensures
        r == noise_after_write(n, addr, value),
{
    let mut c = n;
    if addr == 0x400C {
        c.write_400c(value);
    } else if addr == 0x400E {
        c.write_400e(value);
    } else {
        c.write_400f(value);
    }
    c
}

fn dmc_written(d: DmcChannel, addr: u16, value: u8) -> (r: DmcChannel)
    requires
        0x4010 <= addr <= 0x4013,
    ensures
        r == dmc_after_write(d, addr, value),
{
    let mut c = d;
    if addr == 0x4010 {
        c.write_4010(value);
    } else if addr == 0x4011 {
        c.write_4011(value);
    } else if addr == 0x4012 {
        c.write_4012(value);
    } else {
        c.write_4013(value);
    }
    c
}

fn silenced_pulse(p: PulseChannel) -> (r: PulseChannel)
    ensures
        r == (PulseChannel { length_counter: LengthCounter { enabled: false, halted: true, value: 0 }, ..p }),
{
    let mut c = p;
    c.disable();
    c
}

fn silenced_triangle(t: TriangleChannel) -> (r: TriangleChannel)
    ensures
        r == (TriangleChannel { length_counter: LengthCounter { enabled: false, halted: true, value: 0 }, ..t }),
{
    let mut c = t;
    c.disable();
    c
}

fn silenced_noise(n: NoiseChannel) -> (r: NoiseChannel)
    ensures
        r == (NoiseChannel { length_counter: LengthCounter { enabled: false, halted: true, value: 0 }, ..n }),
{
    let mut c = n;
    c.disable();
    c
}

fn clocked_pulse(p: PulseChannel, quarter_frame_clock: bool, half_frame_clock: bool) -> (r: PulseChannel)
    requires
        p.wf(),
    ensures
        r.wf(),
        r == p.clocked(quarter_frame_clock, half_frame_clock),
{
    let mut c = p;
    c.clock(quarter_frame_clock, half_frame_clock);
    c
}

fn clocked_noise(n: NoiseChannel, quarter_frame_clock: bool, half_frame_clock: bool) -> (r: NoiseChannel)
    ensures
        r == n.clocked(quarter_frame_clock, half_frame_clock),
{
    let mut c = n;
    c.clock(quarter_frame_clock, half_frame_clock);
    c
}

fn clocked_triangle(t: TriangleChannel, quarter_frame_clock: bool) -> (r: TriangleChannel)
    requires
        t.wf(),
    ensures
        r.wf(),
        r == t.clocked(quarter_frame_clock),
{
    let mut c = t;
    c.clock(quarter_frame_clock);
    c
}

proof fn lemma_even_cycle_clocks_frame(a: APU, a2: APU, s: FrameStep, cpu_cycles: usize)
    requires
        cpu_cycles % 2 == 0,
        s == frame_step(a.clock_counter, a.master_sequence_mode, a.irq_disable),
        a2 == (APU { clock_counter: s.counter, ..a.channels_clocked(s.quarter, s.half) }),
    ensures
        a2 == a.clocked(cpu_cycles),
{
}

/// A register write keeps every channel within the ranges its registers allow.
pub proof fn lemma_write_keeps_wf(apu: APU, addr: u16, value: u8)
    requires
        apu.wf(),
    ensures
        apu.write_spec(addr, value).wf(),
{
    reveal(APU::pulse_register_written);
    reveal(APU::channel_register_written);
    reveal(APU::status_written);
    reveal(APU::frame_counter_written);
    apu.pulse1.lemma_clock_keeps_wf(true, true);
    apu.pulse2.lemma_clock_keeps_wf(true, true);
    apu.triangle.lemma_clock_keeps_wf(true);
}

/// Clocking keeps every channel within the ranges its registers allow.
pub proof fn lemma_clock_keeps_wf(apu: APU, cpu_cycles: usize)
    requires
        apu.wf(),
    ensures
        apu.clocked(cpu_cycles).wf(),
{
    let f = frame_step(apu.clock_counter, apu.master_sequence_mode, apu.irq_disable);
    apu.pulse1.lemma_clock_keeps_wf(f.quarter, f.half);
    apu.pulse2.lemma_clock_keeps_wf(f.quarter, f.half);
    apu.triangle.lemma_clock_keeps_wf(f.quarter);
    apu.triangle.lemma_clock_keeps_wf(false);
}

} // verus!
