pub mod dmc_output;
pub mod envelope;
pub mod length_counter;
pub mod sequence_timer;
pub mod sweep;
