//! The chips of the ARC computer: the CPU, and the devices and tables
//! around it.

pub mod alu;
pub mod call_stack;
pub mod cpu;
pub mod instruction_queue;
pub mod io_device;
pub mod laws;
pub mod mmu;
pub mod crom;
