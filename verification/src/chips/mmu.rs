//! The memory management unit: its data and address buses, and the
//! translation of a segment's base and offset to a physical address.

use vstd::prelude::*;

verus! {

/// The memory management unit.
#[derive(Debug, Clone, Copy)]
pub struct MMU {
    data_bus: u32,
    adress_bus: u32,
}

impl MMU {
    /// The value on the data bus.
    pub closed spec fn data(self) -> u32 {
        self.data_bus
    }

    /// The value on the address bus.
    pub closed spec fn address(self) -> u32 {
        self.adress_bus
    }

    /// A unit with both buses at 0.
    pub fn new() -> (m: Self)
        ensures
            m.data() == 0,
            m.address() == 0,
    {
        MMU { data_bus: 0x0, adress_bus: 0x0 }
    }

    /// Puts a value on the data bus.
    pub fn foward_to_data_bus(&mut self, dt: u32)
        ensures
            final(self).data() == dt,
            final(self).address() == old(self).address(),
    {
        self.data_bus = dt;
    }

    /// The value on the data bus.
    pub fn get_from_data_bus(&mut self) -> (r: u32)
        ensures
            r == old(self).data(),
            *final(self) == *old(self),
    {
        self.data_bus
    }

    /// Puts an address on the address bus, keeping its low 32 bits.
    pub fn forward_to_adress_bus(&mut self, adrr: usize)
        ensures
            final(self).address() == adrr as u32,
            final(self).data() == old(self).data(),
    {
        self.adress_bus = adrr as u32;
    }

    /// The value on the address bus.
    pub fn get_from_adress_bus(&mut self) -> (r: u32)
        ensures
            r == old(self).address(),
            *final(self) == *old(self),
    {
        self.adress_bus
    }

    /// The physical address of `offset` in the segment at `base_adress`:
    /// their sum (its low 32 bits) when it lies beyond the segment's limit,
    /// else 0.
    pub fn fisical_adress(&mut self, base_adress: u32, segment_limit: usize, offset: u32) -> (r: u32)
        requires
            base_adress + segment_limit <= usize::MAX,
            base_adress + offset <= usize::MAX,
        ensures
            *final(self) == *old(self),
            r == if base_adress + offset > base_adress + segment_limit {
                (base_adress + offset) as u32
            } else {
                0
            },
    {
        let base = base_adress as usize;
        let physical = base + offset as usize;
        if physical > base + segment_limit {
            physical as u32
        } else {
            0
        }
    }
}

} // verus!
