//! Host Controller Runtime Registers.

use vstd::prelude::*;

use crate::bits;
use crate::error::Error;

verus! {

/// Host Controller Runtime Registers, as one snapshot value.
///
/// This struct does not contain the Interrupter Register Sets; see
/// [`InterrupterRegisterSet`].
#[derive(Copy, Clone, Debug)]
pub struct Runtime {
    /// Microframe Index Register
    pub mfindex: MicroframeIndexRegister,
}

/// Microframe Index Register
#[derive(Copy, Clone, Debug)]
pub struct MicroframeIndexRegister(pub u32);

impl MicroframeIndexRegister {
    /// Returns the Microframe Index field.
    pub fn microframe_index(&self) -> (r: u16)
        ensures
            r == bits::field32(self.0, 0, 14),
    {
        bits::get_field32(self.0, 0, 14) as u16
    }
}

/// Interrupter Register Set.
///
/// One element of the 1024-entry Interrupter array that starts 0x20 bytes
/// into the Runtime register space.
#[derive(Copy, Clone, Debug)]
pub struct InterrupterRegisterSet {
    /// Interrupter Management Register
    pub iman: InterrupterManagementRegister,
    /// Interrupter Moderation Register
    pub imod: InterrupterModerationRegister,
    /// Event Ring Segment Table Size Register
    pub erstsz: EventRingSegmentTableSizeRegister,
    /// Event Ring Segment Table Base Address Register
    pub erstba: EventRingSegmentTableBaseAddressRegister,
    /// Event Ring Dequeue Pointer Register
    pub erdp: EventRingDequeuePointerRegister,
}

/// Interrupter Management Register
#[derive(Copy, Clone, Debug)]
pub struct InterrupterManagementRegister(pub u32);

impl InterrupterManagementRegister {
    /// Returns the Interrupt Pending bit.
    pub fn interrupt_pending(&self) -> (r: bool)
        ensures
            r == bits::bit32(self.0, 0),
    {
        bits::get_bit32(self.0, 0)
    }

    /// Clears the Interrupt Pending bit (on the device, software clears it by writing 1).
    pub fn clear_interrupt_pending(&mut self)
        ensures
            final(self).0 == bits::with_bit32(old(self).0, 0, false),
    {
        self.0 = bits::set_bit32(self.0, 0, false);
    }

    /// Returns the Interrupt Enable bit.
    pub fn interrupt_enable(&self) -> (r: bool)
        ensures
            r == bits::bit32(self.0, 1),
    {
        bits::get_bit32(self.0, 1)
    }

    /// Sets the Interrupt Enable bit.
    pub fn set_interrupt_enable(&mut self)
        ensures
            final(self).0 == bits::with_bit32(old(self).0, 1, true),
    {
        self.0 = bits::set_bit32(self.0, 1, true);
    }

    /// Clears the Interrupt Enable bit.
    pub fn clear_interrupt_enable(&mut self)
        ensures
            final(self).0 == bits::with_bit32(old(self).0, 1, false),
    {
        self.0 = bits::set_bit32(self.0, 1, false);
    }
}

/// Interrupter Moderation Register
#[derive(Copy, Clone, Debug, Default)]
pub struct InterrupterModerationRegister(pub u32);

impl InterrupterModerationRegister {
    /// Returns the Interrupt Moderation Interval field.
    pub fn interrupt_moderation_interval(&self) -> (r: u16)
        ensures
            r == bits::field32(self.0, 0, 16),
    {
        bits::get_field32(self.0, 0, 16) as u16
    }

    /// Sets the Interrupt Moderation Interval field.
    pub fn set_interrupt_moderation_interval(&mut self, v: u16)
        ensures
            final(self).0 == bits::with_field32(old(self).0, v as u32, 0, 16),
    {
        self.0 = bits::set_field32(self.0, v as u32, 0, 16);
    }

    /// Returns the Interrupt Moderation Counter field.
    pub fn interrupt_moderation_counter(&self) -> (r: u16)
        ensures
            r == bits::field32(self.0, 16, 16),
    {
        bits::get_field32(self.0, 16, 16) as u16
    }

    /// Sets the Interrupt Moderation Counter field.
    pub fn set_interrupt_moderation_counter(&mut self, v: u16)
        ensures
            final(self).0 == bits::with_field32(old(self).0, v as u32, 16, 16),
    {
        self.0 = bits::set_field32(self.0, v as u32, 16, 16);
    }
}

/// Event Ring Segment Table Size Register.
#[derive(Copy, Clone, Debug)]
pub struct EventRingSegmentTableSizeRegister(pub u32);

impl EventRingSegmentTableSizeRegister {
    /// Returns the number of segments the Event Ring Segment Table holds.
    pub fn get(self) -> (r: u16)
        ensures
            r == bits::field32(self.0, 0, 16),
    {
        bits::get_field32(self.0, 0, 16) as u16
    }

    /// Sets the number of segments the Event Ring Segment Table holds.
    pub fn set(&mut self, s: u16)
        ensures
            final(self).0 == bits::with_field32(old(self).0, s as u32, 0, 16),
    {
        self.0 = bits::set_field32(self.0, s as u32, 0, 16);
    }
}

/// Event Ring Segment Table Base Address Register
#[derive(Copy, Clone, Debug)]
pub struct EventRingSegmentTableBaseAddressRegister(pub u64);

impl EventRingSegmentTableBaseAddressRegister {
    /// Returns the Event Ring Segment Table Base Address, with the low 6 bits read as zero.
    pub fn get(&self) -> (r: u64)
        ensures
            r == self.0 & !bits::mask64(6),
    {
        self.0 & !bits::mask64_exec(6)
    }

    /// Sets the Event Ring Segment Table Base Address. The value must be 64-byte aligned; a misaligned
    /// value is rejected and the register is left unchanged.
    pub fn set(&mut self, v: u64) -> (r: Result<(), Error>)
        ensures
            v & bits::mask64(6) != 0 ==> r == Err::<(), Error>(Error::Misaligned)
                && final(self).0 == old(self).0,
            v & bits::mask64(6) == 0 ==> r == Ok::<(), Error>(())
                && final(self).0 == (old(self).0 & bits::mask64(6)) | v,
    {
        let m: u64 = bits::mask64_exec(6);
        if v & m != 0 {
            Err(Error::Misaligned)
        } else {
            self.0 = (self.0 & m) | v;
            Ok(())
        }
    }
}

/// Event Ring Dequeue Pointer Register
#[derive(Copy, Clone, Debug, Default)]
pub struct EventRingDequeuePointerRegister(pub u64);

impl EventRingDequeuePointerRegister {
    /// Returns the Dequeue ERST Segment Index field.
    pub fn dequeue_erst_segment_index(&self) -> (r: u8)
        ensures
            r == bits::field64(self.0, 0, 3),
    {
        bits::get_field64(self.0, 0, 3) as u8
    }

    /// Sets the Dequeue ERST Segment Index field.
    pub fn set_dequeue_erst_segment_index(&mut self, v: u8)
        requires
            v <= 0x7,
        ensures
            final(self).0 == bits::with_field64(old(self).0, v as u64, 0, 3),
    {
        self.0 = bits::set_field64(self.0, v as u64, 0, 3);
    }

    /// Returns the Event Handler Busy bit.
    pub fn event_handler_busy(&self) -> (r: bool)
        ensures
            r == bits::bit64(self.0, 3),
    {
        bits::get_bit64(self.0, 3)
    }

    /// Clears the Event Handler Busy bit (on the device, software clears it by writing 1).
    pub fn clear_event_handler_busy(&mut self)
        ensures
            final(self).0 == bits::with_bit64(old(self).0, 3, false),
    {
        self.0 = bits::set_bit64(self.0, 3, false);
    }

    /// Returns the current Event Ring Dequeue Pointer, with the low 4 bits read as zero.
    pub fn event_ring_dequeue_pointer(&self) -> (r: u64)
        ensures
            r == self.0 & !bits::mask64(4),
    {
        self.0 & !bits::mask64_exec(4)
    }

    /// Sets the current Event Ring Dequeue Pointer. The value must be 16-byte aligned; a misaligned
    /// value is rejected and the register is left unchanged.
    pub fn set_event_ring_dequeue_pointer(&mut self, v: u64) -> (r: Result<(), Error>)
        ensures
            v & bits::mask64(4) != 0 ==> r == Err::<(), Error>(Error::Misaligned)
                && final(self).0 == old(self).0,
            v & bits::mask64(4) == 0 ==> r == Ok::<(), Error>(())
                && final(self).0 == (old(self).0 & bits::mask64(4)) | v,
    {
        let m: u64 = bits::mask64_exec(4);
        if v & m != 0 {
            Err(Error::Misaligned)
        } else {
            self.0 = (self.0 & m) | v;
            Ok(())
        }
    }
}

} // verus!
