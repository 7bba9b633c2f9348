use vstd::prelude::*;

pub mod dmc_channel;
pub mod frame_counter;
pub mod pulse_channel;
pub mod registers;
pub mod triangle_channel;
pub mod units;

use crate::nes::apu::noise_channel::NoiseChannel;
use frame_counter::{frame_step, step_frame_counter};
use pulse_channel::PulseChannel;
use triangle_channel::TriangleChannel;

verus! {

/// The registers an APU write may address.
pub open spec fn is_apu_register(addr: u16) -> bool {
    (0x4000 <= addr <= 0x4013) || addr == 0x4015 || addr == 0x4017
}

/// The audio processing unit: two pulse channels, a triangle and a noise channel.
pub struct APU {
    pub pulse1: PulseChannel,
    pub pulse2: PulseChannel,
    pub triangle: TriangleChannel,
    pub noise: NoiseChannel,
    pub enable_dmc: bool,
    pub enable_noise: bool,
    pub enable_triangle: bool,
    pub enable_pulse2: bool,
    pub enable_pulse1: bool,
    pub master_sequence_mode: bool,
    pub irq_disable: bool,
    pub frame_clock_counter: u8,
    pub clock_counter: u32,
}

impl APU {
    pub open spec fn wf(self) -> bool {
        self.pulse1.wf() && self.pulse2.wf() && self.triangle.wf()
    }

    /// The APU after a CPU cycle numbered `cpu_cycles`: on even cycles the frame counter
    /// steps and the pulse and noise channels clock; the triangle clocks on every cycle.
    pub open spec fn clocked(self, cpu_cycles: usize) -> APU {
        if cpu_cycles % 2 == 0 {
            let f = frame_step(self.clock_counter, self.master_sequence_mode, self.irq_disable);
            APU {
                clock_counter: f.counter,
                pulse1: self.pulse1.clocked(f.quarter, f.half),
                pulse2: self.pulse2.clocked(f.quarter, f.half),
                noise: self.noise.clocked(f.quarter, f.half),
                triangle: self.triangle.clocked(f.quarter),
                ..self
            }
        } else {
            APU { triangle: self.triangle.clocked(false), ..self }
        }
    }

    pub fn new() -> (apu: APU)
        ensures
            apu.wf(),
            !apu.enable_dmc && !apu.enable_noise && !apu.enable_triangle,
            !apu.enable_pulse1 && !apu.enable_pulse2,
            !apu.master_sequence_mode,
            !apu.irq_disable,
            apu.frame_clock_counter == 0,
            apu.clock_counter == 0,
            apu.pulse1.sweep.pulse_type == units::sweep::PulseType::Pulse1,
            apu.pulse2.sweep.pulse_type == units::sweep::PulseType::Pulse2,
    {
        APU {
            pulse1: PulseChannel::new(true),
            pulse2: PulseChannel::new(false),
            triangle: TriangleChannel::new(),
            noise: NoiseChannel::new(),
            enable_dmc: false,
            enable_noise: false,
            enable_triangle: false,
            enable_pulse2: false,
            enable_pulse1: false,
            irq_disable: false,
            master_sequence_mode: false,
            frame_clock_counter: 0,
            clock_counter: 0,
        }
    }

    /// The APU after a CPU write of `value` to register `addr`.
    pub open spec fn write_spec(self, addr: u16, value: u8) -> APU {
        match addr {
            0x4000 => APU { pulse1: self.pulse1.write_4000_spec(value), ..self },
            0x4001 => APU { pulse1: self.pulse1.write_4001_spec(value), ..self },
            0x4002 => APU { pulse1: self.pulse1.write_4002_spec(value), ..self },
            0x4003 => APU { pulse1: self.pulse1.write_4003_spec(value), ..self },
            0x4004 => APU { pulse2: self.pulse2.write_4000_spec(value), ..self },
            0x4005 => APU { pulse2: self.pulse2.write_4001_spec(value), ..self },
            0x4006 => APU { pulse2: self.pulse2.write_4002_spec(value), ..self },
            0x4007 => APU { pulse2: self.pulse2.write_4003_spec(value), ..self },
            0x4008 => APU { triangle: self.triangle.write_4008_spec(value), ..self },
            0x400A => APU { triangle: self.triangle.write_400a_spec(value), ..self },
            0x400B => APU { triangle: self.triangle.write_400b_spec(value), ..self },
            0x400C => APU { noise: self.noise.write_400c_spec(value), ..self },
            0x400E => APU { noise: self.noise.write_400e_spec(value), ..self },
            0x400F => APU { noise: self.noise.write_400f_spec(value), ..self },
            0x4015 => APU {
                enable_dmc: (value / 16) % 2 == 1,
                enable_noise: (value / 8) % 2 == 1,
                enable_triangle: (value / 4) % 2 == 1,
                enable_pulse2: (value / 2) % 2 == 1,
                enable_pulse1: value % 2 == 1,
                ..self
            },
            0x4017 => {
                let five_step = value >= 128;
                APU {
                    master_sequence_mode: five_step,
                    irq_disable: (value / 64) % 2 == 1,
                    frame_clock_counter: 0,
                    pulse1: if five_step { self.pulse1.clocked(true, true) } else { self.pulse1 },
                    pulse2: if five_step { self.pulse2.clocked(true, true) } else { self.pulse2 },
                    triangle: if five_step { self.triangle.clocked(true) } else { self.triangle },
                    ..self
                }
            },
            // $4009 and $400D are unused; the DMC registers are not handled yet.
            _ => self,
        }
    }

    /// A CPU write to an APU register.
    #[verifier::rlimit(60)]
    pub fn write(&mut self, addr: u16, value: u8)
        requires
            old(self).wf(),
            is_apu_register(addr),
        ensures
            final(self).wf(),
            *final(self) == old(self).write_spec(addr, value),
    {
        match addr {
            0x4000 => self.pulse1.write_4000(value),
            0x4001 => self.pulse1.write_4001(value),
            0x4002 => self.pulse1.write_4002(value),
            0x4003 => self.pulse1.write_4003(value),
            0x4004 => self.pulse2.write_4000(value),
            0x4005 => self.pulse2.write_4001(value),
            0x4006 => self.pulse2.write_4002(value),
            0x4007 => self.pulse2.write_4003(value),
            0x4008 => self.triangle.write_4008(value),
            0x4009 => {},
            0x400A => self.triangle.write_400a(value),
            0x400B => self.triangle.write_400b(value),
            0x400C => self.noise.write_400c(value),
            0x400D => {},
            0x400E => self.noise.write_400e(value),
            0x400F => self.noise.write_400f(value),
            0x4015 => {
                // Control / status.
                self.enable_dmc = (value / 16) % 2 == 1;
                self.enable_noise = (value / 8) % 2 == 1;
                self.enable_triangle = (value / 4) % 2 == 1;
                self.enable_pulse2 = (value / 2) % 2 == 1;
                self.enable_pulse1 = value % 2 == 1;
            },
            0x4017 => {
                // Frame counter `MI-- ----`: mode, IRQ off.
                self.master_sequence_mode = value >= 0b1000_0000;
                self.irq_disable = (value / 64) % 2 == 1;
                self.frame_clock_counter = 0;
                // Five-step mode clocks the channels at once.
                if self.master_sequence_mode {
                    self.pulse1.clock(true, true);
                    self.pulse2.clock(true, true);
                    self.triangle.clock(true);
                }
            },
            _ => {
                // The DMC registers $4010-$4013 are not handled yet.
            },
        }
    }

    /// Clocks the APU for the CPU cycle numbered `cpu_cycles`; returns whether the frame IRQ
    /// is raised.
    pub fn clock(&mut self, cpu_cycles: usize) -> (irq: bool)
        requires
            old(self).wf(),
            old(self).clock_counter < u32::MAX,
        ensures
            final(self).wf(),
            *final(self) == old(self).clocked(cpu_cycles),
            irq == (cpu_cycles % 2 == 0 && frame_step(
                old(self).clock_counter,
                old(self).master_sequence_mode,
                old(self).irq_disable,
            ).irq),
    {
        let mut quarter_frame_clock = false;
        let mut half_frame_clock = false;
        let mut irq = false;
        if cpu_cycles % 2 == 0 {
            let f = step_frame_counter(self.clock_counter, self.master_sequence_mode, self.irq_disable);
            self.clock_counter = f.counter;
            quarter_frame_clock = f.quarter;
            half_frame_clock = f.half;
            irq = f.irq;
            self.pulse1.clock(quarter_frame_clock, half_frame_clock);
            self.pulse2.clock(quarter_frame_clock, half_frame_clock);
            self.noise.clock(quarter_frame_clock, half_frame_clock);
        }
        self.triangle.clock(quarter_frame_clock);
        irq
    }
}

} // verus!
