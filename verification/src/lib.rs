//! Core of the ARC emulator: memory, registers, the CPU and its instruction
//! set, and the two-pass assembler for ARC assembly text.

pub mod chips;
pub mod instructions;
pub mod memory;
pub mod text;
pub mod utils;
