pub mod dmc_output;
pub mod envelope;

pub use crate::apu::units::length_counter;
pub use crate::apu::units::sequence_timer;
pub use crate::apu::units::sweep;
