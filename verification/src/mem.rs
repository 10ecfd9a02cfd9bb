//! Raw memory access to the target: the byte-level transport capability the
//! memory-mapped command channel is built on.

use vstd::prelude::*;

verus! {

/// Read the target's memory.
///
/// What a read returns depends on the target alone, so no outcome is
/// promised; the channel built on top states what holds of every outcome.
pub trait ReadTargetMem {
    /// Read `len` bytes of target physical memory.
    fn read_phys(&mut self, paddr: usize, len: usize) -> Vec<u8>;

    /// Read `len` bytes of target virtual memory.
    fn read_virt(&mut self, vaddr: usize, len: usize) -> Vec<u8>;
}

/// Write the target's memory.
pub trait WriteTargetMem {
    /// Write the buffer to target physical memory.
    fn write_phys(&mut self, paddr: usize, buf: &[u8]);

    /// Write the buffer to target virtual memory.
    fn write_virt(&mut self, vaddr: usize, buf: &[u8]);
}

} // verus!
