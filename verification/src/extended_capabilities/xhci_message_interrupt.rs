//! xHCI Message Interrupt (MSI) Capability.

use vstd::prelude::*;

use crate::bits;
use crate::error::Error;

verus! {

/// Message Control.
#[derive(Copy, Clone, Debug, PartialEq, Eq, Structural)]
pub struct MessageControl(pub u16);

impl MessageControl {
    /// Returns the MSI Enable bit.
    pub fn msi_enable(&self) -> (r: bool)
        ensures
            r == bits::bit16(self.0, 0),
    {
        bits::get_bit16(self.0, 0)
    }

    /// Sets the MSI Enable bit.
    pub fn set_msi_enable(&mut self)
        ensures
            final(self).0 == bits::with_bit16(old(self).0, 0, true),
    {
        self.0 = bits::set_bit16(self.0, 0, true);
    }

    /// Clears the MSI Enable bit.
    pub fn clear_msi_enable(&mut self)
        ensures
            final(self).0 == bits::with_bit16(old(self).0, 0, false),
    {
        self.0 = bits::set_bit16(self.0, 0, false);
    }

    /// Returns the Multiple Message Capable field.
    pub fn multiple_message_capable(&self) -> (r: u8)
        ensures
            r == bits::field16(self.0, 1, 3),
    {
        bits::get_field16(self.0, 1, 3) as u8
    }

    /// Returns the Multiple Message Enable field.
    pub fn multiple_message_enable(&self) -> (r: u8)
        ensures
            r == bits::field16(self.0, 4, 3),
    {
        bits::get_field16(self.0, 4, 3) as u8
    }

    /// Sets the Multiple Message Enable field.
    pub fn set_multiple_message_enable(&mut self, v: u8)
        requires
            v <= 0x7,
        ensures
            final(self).0 == bits::with_field16(old(self).0, v as u16, 4, 3),
    {
        self.0 = bits::set_field16(self.0, v as u16, 4, 3);
    }

    /// Returns the 64 bit address capable bit.
    pub fn bit64_address_capable(&self) -> (r: bool)
        ensures
            r == bits::bit16(self.0, 7),
    {
        bits::get_bit16(self.0, 7)
    }

    /// Returns the Per-vector masking capable bit.
    pub fn per_vector_masking_capable(&self) -> (r: bool)
        ensures
            r == bits::bit16(self.0, 8),
    {
        bits::get_bit16(self.0, 8)
    }
}

/// xHCI Message Interrupt Capability. The address accessors depend on
/// whether the function is 64-bit address capable: `N` is 1 for the
/// 32-bit shape and 2 for the 64-bit shape.
#[derive(Copy, Clone, Debug, PartialEq, Eq)]
pub struct XhciMessageInterrupt<const N: usize> {
    /// Message Control.
    pub control: MessageControl,
    /// Message Address; the second dword is unused in the 32-bit shape.
    pub addr: [u32; 2],
    /// Data.
    pub data: u16,
    /// Mask Bits.
    pub mask_bits: u32,
    /// Pending Bits.
    pub pending_bits: u32,
}

/// The Message Control word encoded at dword offset `base` of `regs`.
pub open spec fn spec_read_control(regs: Seq<u32>, base: int) -> MessageControl {
    MessageControl(bits::field32(regs[base], 16, 16) as u16)
}

impl<const N: usize> XhciMessageInterrupt<N> {
    /// Decodes the capability from the dwords at offset `base`.
    pub fn read_at(regs: &[u32], base: usize) -> (r: Self)
        requires
            base + 6 <= regs@.len(),
        ensures
            r.control == spec_read_control(regs@, base as int),
            r.addr[0] == regs@[base + 1],
            r.addr[1] == regs@[base + 2],
            r.data == bits::field32(regs@[base + 3], 0, 16),
            r.mask_bits == regs@[base + 4],
            r.pending_bits == regs@[base + 5],
    {
        XhciMessageInterrupt {
            control: MessageControl(bits::get_field32(regs[base], 16, 16) as u16),
            addr: [regs[base + 1], regs[base + 2]],
            data: bits::get_field32(regs[base + 3], 0, 16) as u16,
            mask_bits: regs[base + 4],
            pending_bits: regs[base + 5],
        }
    }
}

impl XhciMessageInterrupt<1> {
    /// Returns the 32-bit Message Address, with the low 2 bits read as zero.
    pub fn address(&self) -> (r: u32)
        ensures
            r == self.addr[0] & !bits::mask32(2),
    {
        self.addr[0] & !bits::mask32_exec(2)
    }

    /// Sets the 32-bit Message Address. The value must be 4-byte aligned; a misaligned value is
    /// rejected and nothing is written.
    pub fn set_address(&mut self, v: u32) -> (r: Result<(), Error>)
        ensures
            v & bits::mask32(2) != 0 ==> r == Err::<(), Error>(Error::Misaligned)
                && final(self).addr == old(self).addr,
            v & bits::mask32(2) == 0 ==> r == Ok::<(), Error>(())
                && final(self).addr[0] == (old(self).addr[0] & bits::mask32(2)) | v,
            v & bits::mask32(2) == 0 ==> forall|i: int|
                0 <= i < 2 && i != 0 ==> final(self).addr[i] == old(self).addr[i],
    {
        let m: u32 = bits::mask32_exec(2);
        if v & m != 0 {
            Err(Error::Misaligned)
        } else {
            self.addr[0] = (self.addr[0] & m) | v;
            Ok(())
        }
    }
}

impl XhciMessageInterrupt<2> {
    /// Returns the 64-bit Message Address, with the low 2 bits read as zero.
    pub fn address(&self) -> (r: u64)
        ensures
            r == (((self.addr[1] as u64) << 32) | (self.addr[0] as u64)) & !bits::mask64(2),
    {
        (((self.addr[1] as u64) << 32) | (self.addr[0] as u64)) & !bits::mask64_exec(2)
    }

    /// Sets the 64-bit Message Address. The value must be 4-byte aligned; a misaligned value is
    /// rejected and nothing is written.
    pub fn set_address(&mut self, v: u64) -> (r: Result<(), Error>)
        ensures
            v & bits::mask64(2) != 0 ==> r == Err::<(), Error>(Error::Misaligned)
                && final(self).addr == old(self).addr,
            v & bits::mask64(2) == 0 ==> r == Ok::<(), Error>(())
                && final(self).addr[0] == (((((old(self).addr[1] as u64) << 32) | (old(self).addr[0] as u64)) & bits::mask64(2)) | v) as u32
                && final(self).addr[1] == ((((((old(self).addr[1] as u64) << 32) | (old(self).addr[0] as u64)) & bits::mask64(2)) | v) >> 32) as u32,
            v & bits::mask64(2) == 0 ==> forall|i: int|
                0 <= i < 2 && i != 0 && i != 1 ==> final(self).addr[i] == old(self).addr[i],
    {
        let m: u64 = bits::mask64_exec(2);
        if v & m != 0 {
            Err(Error::Misaligned)
        } else {
            let joined: u64 = ((((self.addr[1] as u64) << 32) | (self.addr[0] as u64)) & m) | v;
            self.addr[0] = joined as u32;
            self.addr[1] = (joined >> 32) as u32;
            Ok(())
        }
    }
}

/// The shapes of the Message Interrupt capability: 32-bit or 64-bit
/// Message Address, chosen by Message Control bit 7.
#[allow(missing_debug_implementations)]
pub enum MessageInterrupt {
    /// Shape using a 32-bit Message Address.
    Addr32(XhciMessageInterrupt<1>),
    /// Shape using a 64-bit Message Address.
    Addr64(XhciMessageInterrupt<2>),
}

impl MessageInterrupt {
    /// Returns whether this is the 64-bit address capable shape.
    pub fn bit64_address_capable(&self) -> (r: bool)
        ensures
            r == (self matches MessageInterrupt::Addr64(_)),
    {
        match self {
            MessageInterrupt::Addr64(_) => true,
            _ => false,
        }
    }
}

} // verus!