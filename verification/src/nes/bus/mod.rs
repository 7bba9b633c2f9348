pub mod simple_bus;
pub mod nes_bus;
