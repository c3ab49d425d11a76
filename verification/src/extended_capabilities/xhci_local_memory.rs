//! xHCI Local Memory Capability.

use vstd::prelude::*;

use crate::bits;

verus! {

/// The header of the xHCI Local Memory Capability: the capability header
/// dword with the Local Memory Enable bit, and the size dword.
#[derive(Copy, Clone, Debug, PartialEq, Eq)]
pub struct Header(pub [u32; 2]);

impl Header {
    /// Returns the Local Memory Enable bit.
    pub fn local_memory_enable(&self) -> (r: bool)
        ensures
            r == bits::bit32(self.0[0], 16),
    {
        bits::get_bit32(self.0[0], 16)
    }

    /// Sets the Local Memory Enable bit.
    pub fn set_local_memory_enable(&mut self)
        ensures
            final(self).0[0] == bits::with_bit32(old(self).0[0], 16, true),
            forall|i: int| 0 <= i < 2 && i != 0 ==> final(self).0[i] == old(self).0[i],
    {
        self.0[0] = bits::set_bit32(self.0[0], 16, true);
    }

    /// Clears the Local Memory Enable bit.
    pub fn clear_local_memory_enable(&mut self)
        ensures
            final(self).0[0] == bits::with_bit32(old(self).0[0], 16, false),
            forall|i: int| 0 <= i < 2 && i != 0 ==> final(self).0[i] == old(self).0[i],
    {
        self.0[0] = bits::set_bit32(self.0[0], 16, false);
    }

    /// Returns the memory size in units of 1024 bytes (256 dwords).
    pub fn size(self) -> (r: u32)
        ensures
            r == self.0[1],
    {
        self.0[1]
    }
}

/// xHCI Local Memory Capability: the header, and where the memory dwords
/// that follow it lie within the extended-capability region.
#[derive(Copy, Clone, Debug, PartialEq, Eq)]
pub struct LocalMemory {
    /// The header part.
    pub header: Header,
    /// The dword offset of the memory area: just past the 8-byte header.
    pub memory_offset: usize,
    /// The length of the memory area in dwords: 256 for each size unit.
    pub memory_dwords: u64,
}

/// The Local Memory header encoded at dword offset `base` of `regs`.
pub open spec fn spec_read_header(regs: Seq<u32>, base: int) -> Header {
    Header([regs[base], regs[base + 1]])
}

impl LocalMemory {
    /// Decodes the capability from the dwords at offset `base`.
    pub fn read_at(regs: &[u32], base: usize) -> (r: Self)
        requires
            base + 2 <= regs@.len(),
        ensures
            r.header.0[0] == regs@[base as int],
            r.header.0[1] == regs@[base + 1],
            r.memory_offset == base + 2,
            r.memory_dwords == 256 * (regs@[base + 1] as u64),
    {
        let header = Header([regs[base], regs[base + 1]]);
        let dwords: u64 = 256 * (header.size() as u64);
        LocalMemory { header, memory_offset: base + 2, memory_dwords: dwords }
    }
}

} // verus!