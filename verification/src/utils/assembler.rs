//! The ARC assembler: operand and command parsing, the encoding of single
//! commands, and program assembly.

pub mod command_processor;
pub mod encoder;
pub mod operands;
