//! Address translation for the ACPI table search. The platform keeps all
//! physical memory visible at one fixed virtual offset; the handler the
//! table search drives answers each mapping request with the address
//! arithmetic below, and the platform layer wraps the result into the
//! pointer the search reads through.

use vstd::prelude::*;

verus! {

/// Answers the ACPI table search's mapping requests through the fixed
/// physical-memory offset mapping.
#[derive(Debug, Clone, Copy, PartialEq, Eq, Structural)]
pub struct AcpiMemoryHandler {
    /// Virtual address physical address 0 is visible at.
    pub phys_mem_offset: u64,
}

impl AcpiMemoryHandler {
    /// A handler for the given physical-memory offset.
    pub fn new(phys_mem_offset: u64) -> (r: Self)
        ensures
            r.phys_mem_offset == phys_mem_offset,
    {
        AcpiMemoryHandler { phys_mem_offset }
    }

    /// The virtual address a physical region starts at: its physical
    /// address displaced by the fixed offset. A region is already visible
    /// there, so mapping it is this computation alone, and unmapping it is
    /// nothing at all.
    pub fn virtual_start(&self, physical_address: u64) -> (r: u64)
        requires
            self.phys_mem_offset + physical_address <= u64::MAX,
        ensures
            r == self.phys_mem_offset + physical_address,
    {
        self.phys_mem_offset + physical_address
    }
}

} // verus!
