//! The arithmetic-logic unit's state.

use vstd::prelude::*;

verus! {

/// The state of the arithmetic-logic unit: the instruction it works on,
/// how long it has, and whether a general protection fault was raised.
#[derive(Debug)]
pub struct ALU {
    pub instruction: &'static str,
    pub lifetime: u32,
    pub gpf: bool,
}

impl ALU {
    /// An idle unit: the instruction `NULL`, no time, no fault.
    pub fn new() -> (a: Self)
        ensures
            a.instruction@ == "NULL"@,
            a.lifetime == 0,
            !a.gpf,
    {
        ALU { instruction: "NULL", lifetime: 0, gpf: false }
    }
}

} // verus!
