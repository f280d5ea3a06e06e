//! Utilities around the emulator: the assembler, and the operands of the
//! first instruction format.

pub mod apps;
pub mod buffers;
pub mod assembler;
pub mod command_processor;
pub mod config;
pub mod laws;
pub mod logger;
pub mod operands;
pub mod ui;
pub mod workspaces;
