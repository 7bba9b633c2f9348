//! The processor's flags, addressing modes and rotate helpers, re-exported for callers
//! that name them under `cpu`.

pub use crate::nes::cpu::instruction_handlers::{rotate_value_left, rotate_value_right};
pub use crate::nes::cpu::{AddressingMode, Flags};
