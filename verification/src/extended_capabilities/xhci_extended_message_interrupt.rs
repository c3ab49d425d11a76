//! xHCI Extended Message Interrupt (MSI-X) Capability.

use vstd::prelude::*;

use crate::bits;

verus! {

/// Message Control.
#[derive(Copy, Clone, Debug, PartialEq, Eq, Structural)]
pub struct MessageControl(pub u16);

impl MessageControl {
    /// Returns the Table Size field.
    pub fn table_size(&self) -> (r: u16)
        ensures
            r == bits::field16(self.0, 0, 11),
    {
        bits::get_field16(self.0, 0, 11) as u16
    }

    /// Returns the MSI-X Enable bit.
    pub fn msi_x_enable(&self) -> (r: bool)
        ensures
            r == bits::bit16(self.0, 15),
    {
        bits::get_bit16(self.0, 15)
    }

    /// Sets the MSI-X Enable bit.
    pub fn set_msi_x_enable(&mut self)
        ensures
            final(self).0 == bits::with_bit16(old(self).0, 15, true),
    {
        self.0 = bits::set_bit16(self.0, 15, true);
    }

    /// Clears the MSI-X Enable bit.
    pub fn clear_msi_x_enable(&mut self)
        ensures
            final(self).0 == bits::with_bit16(old(self).0, 15, false),
    {
        self.0 = bits::set_bit16(self.0, 15, false);
    }
}

/// Table Offset and BIR.
#[derive(Copy, Clone, Debug, PartialEq, Eq, Structural)]
pub struct TableOffset(pub u32);

impl TableOffset {
    /// Returns the BIR value.
    pub fn bir(&self) -> (r: u8)
        ensures
            r == bits::field32(self.0, 0, 3),
    {
        bits::get_field32(self.0, 0, 3) as u8
    }

    /// Returns the 8-byte aligned table offset.
    pub fn offset(self) -> (r: u32)
        ensures
            r == self.0 & !bits::mask32(3),
    {
        self.0 & !bits::mask32_exec(3)
    }
}

/// xHCI Extended Message Interrupt (MSI-X) Capability.
#[derive(Copy, Clone, Debug, PartialEq, Eq, Structural)]
pub struct XhciExtendedMessageInterrupt {
    /// Message Control.
    pub control: MessageControl,
    /// Message Upper Address.
    pub upper_address: u32,
    /// Table Offset and BIR.
    pub table_offset: TableOffset,
}

/// The Extended Message Interrupt value encoded at dword offset `base`
/// of `regs`.
pub open spec fn spec_read(regs: Seq<u32>, base: int) -> XhciExtendedMessageInterrupt {
    XhciExtendedMessageInterrupt {
        control: MessageControl(bits::field32(regs[base], 16, 16) as u16),
        upper_address: regs[base + 1],
        table_offset: TableOffset(regs[base + 2]),
    }
}

impl XhciExtendedMessageInterrupt {
    /// Decodes the capability from the dwords at offset `base`.
    pub fn read_at(regs: &[u32], base: usize) -> (r: Self)
        requires
            base + 3 <= regs@.len(),
        ensures
            r == spec_read(regs@, base as int),
    {
        XhciExtendedMessageInterrupt {
            control: MessageControl(bits::get_field32(regs[base], 16, 16) as u16),
            upper_address: regs[base + 1],
            table_offset: TableOffset(regs[base + 2]),
        }
    }
}

} // verus!