//! A NES emulator core: the 6502 CPU, the APU units and channels, the PPU
//! registers and address mirroring, the CPU buses and the cartridge mappers.

pub mod apu;
pub mod bus;
pub mod cartridge;
pub mod controller;
pub mod cpu;
pub mod display;
pub mod error;
pub mod memory;
pub mod nes;
pub mod rom;
