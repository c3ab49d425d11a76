//! USB Debug Capability.

use vstd::prelude::*;

use crate::bits;
use crate::error::Error;

verus! {

/// Debug Capability ID Register.
#[derive(Copy, Clone, Debug, PartialEq, Eq, Structural)]
pub struct Id(pub u32);

impl Id {
    /// Returns the maximum number of elements the Debug Capability Event
    /// Ring Segment Table can contain. The DCERST Max field holds the
    /// exponent; this method returns the computed count.
    pub fn debug_capability_event_ring_segment_table_max(self) -> (r: u16)
        requires
            bits::field32(self.0, 16, 5) < 16,
        ensures
            r == 1u16 << bits::field32(self.0, 16, 5),
    {
        1u16 << bits::get_field32(self.0, 16, 5)
    }
}

/// Debug Capability Doorbell Register.
#[derive(Copy, Clone, Debug, PartialEq, Eq, Structural)]
pub struct Doorbell(pub u32);

impl Doorbell {
    /// Returns the Doorbell Target field.
    pub fn get(&self) -> (r: u8)
        ensures
            r == bits::field32(self.0, 8, 8),
    {
        bits::get_field32(self.0, 8, 8) as u8
    }

    /// Sets the Doorbell Target field.
    pub fn set(&mut self, v: u8)
        ensures
            final(self).0 == bits::with_field32(old(self).0, v as u32, 8, 8),
    {
        self.0 = bits::set_field32(self.0, v as u32, 8, 8);
    }
}

/// Debug Capability Event Ring Segment Table Size Register.
#[derive(Copy, Clone, Debug, PartialEq, Eq, Structural)]
pub struct EventRingSegmentTableSize(pub u32);

impl EventRingSegmentTableSize {
    /// Returns the Event Ring Segment Table Size field.
    pub fn get(&self) -> (r: u16)
        ensures
            r == bits::field32(self.0, 0, 16),
    {
        bits::get_field32(self.0, 0, 16) as u16
    }

    /// Sets the Event Ring Segment Table Size field.
    pub fn set(&mut self, v: u16)
        ensures
            final(self).0 == bits::with_field32(old(self).0, v as u32, 0, 16),
    {
        self.0 = bits::set_field32(self.0, v as u32, 0, 16);
    }
}

/// Debug Capability Event Ring Segment Table Base Address Register.
#[derive(Copy, Clone, Debug, PartialEq, Eq, Structural)]
pub struct EventRingSegmentTableBaseAddress(pub u64);

impl EventRingSegmentTableBaseAddress {
    /// Returns the Event Ring Segment Table Base Address, with the low 4 bits read as zero.
    pub fn get(&self) -> (r: u64)
        ensures
            r == self.0 & !bits::mask64(4),
    {
        self.0 & !bits::mask64_exec(4)
    }

    /// Sets the Event Ring Segment Table Base Address. The value must be aligned with the low 4 bits zero; a misaligned
    /// value is rejected and the register is left unchanged.
    pub fn set(&mut self, v: u64) -> (r: Result<(), Error>)
        ensures
            v & bits::mask64(4) != 0 ==> r == Err::<(), Error>(Error::Misaligned)
                && final(self).0 == old(self).0,
            v & bits::mask64(4) == 0 ==> r == Ok::<(), Error>(())
                && final(self).0 == (old(self).0 & bits::mask64(4)) | v,
    {
        let m: u64 = bits::mask64_exec(4);
        if v & m != 0 {
            Err(Error::Misaligned)
        } else {
            self.0 = (self.0 & m) | v;
            Ok(())
        }
    }
}

/// Debug Capability Event Ring Dequeue Pointer Register.
#[derive(Copy, Clone, Debug, PartialEq, Eq, Structural)]
pub struct EventRingDequeuePointer(pub u64);

impl EventRingDequeuePointer {
    /// Returns the Dequeue ERST Segment Index field.
    pub fn dequeue_erst_segment_index(&self) -> (r: u8)
        ensures
            r == bits::field64(self.0, 0, 3),
    {
        bits::get_field64(self.0, 0, 3) as u8
    }

    /// Sets the Dequeue ERST Segment Index field.
    pub fn set_dequeue_erst_segment_index(&mut self, v: u8)
        requires
            v <= 0x7,
        ensures
            final(self).0 == bits::with_field64(old(self).0, v as u64, 0, 3),
    {
        self.0 = bits::set_field64(self.0, v as u64, 0, 3);
    }

    /// Returns the Event Ring Dequeue Pointer, with the low 4 bits read as zero.
    pub fn dequeue_pointer(&self) -> (r: u64)
        ensures
            r == self.0 & !bits::mask64(4),
    {
        self.0 & !bits::mask64_exec(4)
    }

    /// Sets the Event Ring Dequeue Pointer. The value must be 16-byte aligned; a misaligned
    /// value is rejected and the register is left unchanged.
    pub fn set_dequeue_pointer(&mut self, v: u64) -> (r: Result<(), Error>)
        ensures
            v & bits::mask64(4) != 0 ==> r == Err::<(), Error>(Error::Misaligned)
                && final(self).0 == old(self).0,
            v & bits::mask64(4) == 0 ==> r == Ok::<(), Error>(())
                && final(self).0 == (old(self).0 & bits::mask64(4)) | v,
    {
        let m: u64 = bits::mask64_exec(4);
        if v & m != 0 {
            Err(Error::Misaligned)
        } else {
            self.0 = (self.0 & m) | v;
            Ok(())
        }
    }
}

/// Debug Capability Control Register.
#[derive(Copy, Clone, Debug, PartialEq, Eq, Structural)]
pub struct Control(pub u32);

impl Control {
    /// Returns the DbC Run bit.
    pub fn dbc_run(&self) -> (r: bool)
        ensures
            r == bits::bit32(self.0, 0),
    {
        bits::get_bit32(self.0, 0)
    }

    /// Returns the Link Status Event Enable bit.
    pub fn link_status_event_enable(&self) -> (r: bool)
        ensures
            r == bits::bit32(self.0, 1),
    {
        bits::get_bit32(self.0, 1)
    }

    /// Sets the Link Status Event Enable bit.
    pub fn set_link_status_event_enable(&mut self)
        ensures
            final(self).0 == bits::with_bit32(old(self).0, 1, true),
    {
        self.0 = bits::set_bit32(self.0, 1, true);
    }

    /// Clears the Link Status Event Enable bit.
    pub fn clear_link_status_event_enable(&mut self)
        ensures
            final(self).0 == bits::with_bit32(old(self).0, 1, false),
    {
        self.0 = bits::set_bit32(self.0, 1, false);
    }

    /// Returns the Halt OUT TR bit.
    pub fn halt_out_tr(&self) -> (r: bool)
        ensures
            r == bits::bit32(self.0, 2),
    {
        bits::get_bit32(self.0, 2)
    }

    /// Sets the Halt OUT TR bit (on the device, software sets it by writing 1).
    pub fn set_halt_out_tr(&mut self)
        ensures
            final(self).0 == bits::with_bit32(old(self).0, 2, true),
    {
        self.0 = bits::set_bit32(self.0, 2, true);
    }

    /// Returns the Halt IN TR bit.
    pub fn halt_in_tr(&self) -> (r: bool)
        ensures
            r == bits::bit32(self.0, 3),
    {
        bits::get_bit32(self.0, 3)
    }

    /// Sets the Halt IN TR bit (on the device, software sets it by writing 1).
    pub fn set_halt_in_tr(&mut self)
        ensures
            final(self).0 == bits::with_bit32(old(self).0, 3, true),
    {
        self.0 = bits::set_bit32(self.0, 3, true);
    }

    /// Returns the DbC Run Change bit.
    pub fn dbc_run_change(&self) -> (r: bool)
        ensures
            r == bits::bit32(self.0, 4),
    {
        bits::get_bit32(self.0, 4)
    }

    /// Clears the DbC Run Change bit (on the device, software clears it by writing 1).
    pub fn clear_dbc_run_change(&mut self)
        ensures
            final(self).0 == bits::with_bit32(old(self).0, 4, false),
    {
        self.0 = bits::set_bit32(self.0, 4, false);
    }

    /// Returns the Debug Max Burst Size field.
    pub fn debug_max_burst_size(&self) -> (r: u8)
        ensures
            r == bits::field32(self.0, 16, 8),
    {
        bits::get_field32(self.0, 16, 8) as u8
    }

    /// Returns the Device Address field.
    pub fn device_address(&self) -> (r: u8)
        ensures
            r == bits::field32(self.0, 24, 7),
    {
        bits::get_field32(self.0, 24, 7) as u8
    }

    /// Returns the Debug Capability Enable bit.
    pub fn debug_capability_enable(&self) -> (r: bool)
        ensures
            r == bits::bit32(self.0, 31),
    {
        bits::get_bit32(self.0, 31)
    }

    /// Sets the Debug Capability Enable bit.
    pub fn set_debug_capability_enable(&mut self)
        ensures
            final(self).0 == bits::with_bit32(old(self).0, 31, true),
    {
        self.0 = bits::set_bit32(self.0, 31, true);
    }

    /// Clears the Debug Capability Enable bit.
    pub fn clear_debug_capability_enable(&mut self)
        ensures
            final(self).0 == bits::with_bit32(old(self).0, 31, false),
    {
        self.0 = bits::set_bit32(self.0, 31, false);
    }
}

/// Debug Capability Status Register.
#[derive(Copy, Clone, Debug, PartialEq, Eq, Structural)]
pub struct Status(pub u32);

impl Status {
    /// Returns the Event Ring Not Empty bit.
    pub fn event_ring_not_empty(&self) -> (r: bool)
        ensures
            r == bits::bit32(self.0, 0),
    {
        bits::get_bit32(self.0, 0)
    }

    /// Returns the DbC System Bus Reset bit.
    pub fn dbc_system_bus_reset(&self) -> (r: bool)
        ensures
            r == bits::bit32(self.0, 1),
    {
        bits::get_bit32(self.0, 1)
    }

    /// Returns the Debug Port Number field.
    pub fn debug_port_number(&self) -> (r: u8)
        ensures
            r == bits::field32(self.0, 24, 8),
    {
        bits::get_field32(self.0, 24, 8) as u8
    }
}

/// Debug Capability Port Status and Control Register.
#[derive(Copy, Clone, Debug, PartialEq, Eq, Structural)]
pub struct PortStatusAndControl(pub u32);

impl PortStatusAndControl {
    /// Returns the Current Connect Status bit.
    pub fn current_connect_status(&self) -> (r: bool)
        ensures
            r == bits::bit32(self.0, 0),
    {
        bits::get_bit32(self.0, 0)
    }

    /// Returns the Port Enabled/Disabled bit.
    pub fn port_enabled_disabled(&self) -> (r: bool)
        ensures
            r == bits::bit32(self.0, 1),
    {
        bits::get_bit32(self.0, 1)
    }

    /// Sets the Port Enabled/Disabled bit.
    pub fn set_port_enabled_disabled(&mut self)
        ensures
            final(self).0 == bits::with_bit32(old(self).0, 1, true),
    {
        self.0 = bits::set_bit32(self.0, 1, true);
    }

    /// Clears the Port Enabled/Disabled bit.
    pub fn clear_port_enabled_disabled(&mut self)
        ensures
            final(self).0 == bits::with_bit32(old(self).0, 1, false),
    {
        self.0 = bits::set_bit32(self.0, 1, false);
    }

    /// Returns the Port Reset bit.
    pub fn port_reset(&self) -> (r: bool)
        ensures
            r == bits::bit32(self.0, 4),
    {
        bits::get_bit32(self.0, 4)
    }

    /// Returns the Port Link State field.
    pub fn port_link_state(&self) -> (r: u8)
        ensures
            r == bits::field32(self.0, 5, 4),
    {
        bits::get_field32(self.0, 5, 4) as u8
    }

    /// Sets the Port Link State field.
    pub fn set_port_link_state(&mut self, v: u8)
        requires
            v <= 0xf,
        ensures
            final(self).0 == bits::with_field32(old(self).0, v as u32, 5, 4),
    {
        self.0 = bits::set_field32(self.0, v as u32, 5, 4);
    }

    /// Returns the Port Speed field.
    pub fn port_speed(&self) -> (r: u8)
        ensures
            r == bits::field32(self.0, 10, 4),
    {
        bits::get_field32(self.0, 10, 4) as u8
    }

    /// Returns the Connect Status Change bit.
    pub fn connect_status_change(&self) -> (r: bool)
        ensures
            r == bits::bit32(self.0, 17),
    {
        bits::get_bit32(self.0, 17)
    }

    /// Clears the Connect Status Change bit (on the device, software clears it by writing 1).
    pub fn clear_connect_status_change(&mut self)
        ensures
            final(self).0 == bits::with_bit32(old(self).0, 17, false),
    {
        self.0 = bits::set_bit32(self.0, 17, false);
    }

    /// Returns the Port Reset Change bit.
    pub fn port_reset_change(&self) -> (r: bool)
        ensures
            r == bits::bit32(self.0, 21),
    {
        bits::get_bit32(self.0, 21)
    }

    /// Clears the Port Reset Change bit (on the device, software clears it by writing 1).
    pub fn clear_port_reset_change(&mut self)
        ensures
            final(self).0 == bits::with_bit32(old(self).0, 21, false),
    {
        self.0 = bits::set_bit32(self.0, 21, false);
    }

    /// Returns the Port Link Status Change bit.
    pub fn port_link_status_change(&self) -> (r: bool)
        ensures
            r == bits::bit32(self.0, 22),
    {
        bits::get_bit32(self.0, 22)
    }

    /// Clears the Port Link Status Change bit (on the device, software clears it by writing 1).
    pub fn clear_port_link_status_change(&mut self)
        ensures
            final(self).0 == bits::with_bit32(old(self).0, 22, false),
    {
        self.0 = bits::set_bit32(self.0, 22, false);
    }

    /// Returns the Port Config Error Change bit.
    pub fn port_config_error_change(&self) -> (r: bool)
        ensures
            r == bits::bit32(self.0, 23),
    {
        bits::get_bit32(self.0, 23)
    }

    /// Clears the Port Config Error Change bit (on the device, software clears it by writing 1).
    pub fn clear_port_config_error_change(&mut self)
        ensures
            final(self).0 == bits::with_bit32(old(self).0, 23, false),
    {
        self.0 = bits::set_bit32(self.0, 23, false);
    }
}

/// Debug Capability Context Pointer Register.
#[derive(Copy, Clone, Debug, PartialEq, Eq, Structural)]
pub struct ContextPointer(pub u64);

impl ContextPointer {
    /// Returns the Debug Capability Context Base Pointer, with the low 4 bits read as zero.
    pub fn get(&self) -> (r: u64)
        ensures
            r == self.0 & !bits::mask64(4),
    {
        self.0 & !bits::mask64_exec(4)
    }

    /// Sets the Debug Capability Context Base Pointer. The value must be 16-byte aligned; a misaligned
    /// value is rejected and the register is left unchanged.
    pub fn set(&mut self, v: u64) -> (r: Result<(), Error>)
        ensures
            v & bits::mask64(4) != 0 ==> r == Err::<(), Error>(Error::Misaligned)
                && final(self).0 == old(self).0,
            v & bits::mask64(4) == 0 ==> r == Ok::<(), Error>(())
                && final(self).0 == (old(self).0 & bits::mask64(4)) | v,
    {
        let m: u64 = bits::mask64_exec(4);
        if v & m != 0 {
            Err(Error::Misaligned)
        } else {
            self.0 = (self.0 & m) | v;
            Ok(())
        }
    }
}

/// Debug Capability Device Descriptor Info Register 1.
#[derive(Copy, Clone, Debug, PartialEq, Eq, Structural)]
pub struct DeviceDescriptorInfo1(pub u32);

impl DeviceDescriptorInfo1 {
    /// Returns the DbC Protocol field.
    pub fn dbc_protocol(&self) -> (r: u8)
        ensures
            r == bits::field32(self.0, 0, 8),
    {
        bits::get_field32(self.0, 0, 8) as u8
    }

    /// Sets the DbC Protocol field.
    pub fn set_dbc_protocol(&mut self, v: u8)
        ensures
            final(self).0 == bits::with_field32(old(self).0, v as u32, 0, 8),
    {
        self.0 = bits::set_field32(self.0, v as u32, 0, 8);
    }

    /// Returns the Vendor ID field.
    pub fn vendor_id(&self) -> (r: u16)
        ensures
            r == bits::field32(self.0, 16, 16),
    {
        bits::get_field32(self.0, 16, 16) as u16
    }

    /// Sets the Vendor ID field.
    pub fn set_vendor_id(&mut self, v: u16)
        ensures
            final(self).0 == bits::with_field32(old(self).0, v as u32, 16, 16),
    {
        self.0 = bits::set_field32(self.0, v as u32, 16, 16);
    }
}

/// Debug Capability Device Descriptor Info Register 2.
#[derive(Copy, Clone, Debug, PartialEq, Eq, Structural)]
pub struct DeviceDescriptorInfo2(pub u32);

impl DeviceDescriptorInfo2 {
    /// Returns the Product ID field.
    pub fn product_id(&self) -> (r: u16)
        ensures
            r == bits::field32(self.0, 0, 16),
    {
        bits::get_field32(self.0, 0, 16) as u16
    }

    /// Sets the Product ID field.
    pub fn set_product_id(&mut self, v: u16)
        ensures
            final(self).0 == bits::with_field32(old(self).0, v as u32, 0, 16),
    {
        self.0 = bits::set_field32(self.0, v as u32, 0, 16);
    }

    /// Returns the Device Revision field.
    pub fn device_revision(&self) -> (r: u16)
        ensures
            r == bits::field32(self.0, 16, 16),
    {
        bits::get_field32(self.0, 16, 16) as u16
    }

    /// Sets the Device Revision field.
    pub fn set_device_revision(&mut self, v: u16)
        ensures
            final(self).0 == bits::with_field32(old(self).0, v as u32, 16, 16),
    {
        self.0 = bits::set_field32(self.0, v as u32, 16, 16);
    }
}

/// The Debug Capability register set: sixteen dwords of registers.
#[allow(missing_debug_implementations)]
#[derive(Copy, Clone)]
pub struct Debug {
    /// Capability ID, the Capability Header part.
    pub dcid: Id,
    /// Doorbell.
    pub dcdb: Doorbell,
    /// Event Ring Segment Table Size.
    pub dcerstsz: EventRingSegmentTableSize,
    /// Event Ring Segment Table Base Address.
    pub dcerstba: EventRingSegmentTableBaseAddress,
    /// Event Ring Dequeue Pointer.
    pub dcerdp: EventRingDequeuePointer,
    /// Control.
    pub dcctrl: Control,
    /// Status.
    pub dcst: Status,
    /// Port Status and Control.
    pub dcportsc: PortStatusAndControl,
    /// Debug Capability Context Pointer.
    pub dccp: ContextPointer,
    /// Device Descriptor Info Register 1.
    pub dcddi1: DeviceDescriptorInfo1,
    /// Device Descriptor Info Register 2.
    pub dcddi2: DeviceDescriptorInfo2,
}

/// A 64-bit register value from its two little-endian dwords.
pub open spec fn spec_join(lo: u32, hi: u32) -> u64 {
    ((hi as u64) << 32) | (lo as u64)
}

/// The Debug Capability registers encoded at dword offset `base` of
/// `regs`.
pub open spec fn spec_read(regs: Seq<u32>, base: int) -> Debug {
    Debug {
        dcid: Id(regs[base]),
        dcdb: Doorbell(regs[base + 1]),
        dcerstsz: EventRingSegmentTableSize(regs[base + 2]),
        dcerstba: EventRingSegmentTableBaseAddress(spec_join(regs[base + 4], regs[base + 5])),
        dcerdp: EventRingDequeuePointer(spec_join(regs[base + 6], regs[base + 7])),
        dcctrl: Control(regs[base + 8]),
        dcst: Status(regs[base + 9]),
        dcportsc: PortStatusAndControl(regs[base + 10]),
        dccp: ContextPointer(spec_join(regs[base + 12], regs[base + 13])),
        dcddi1: DeviceDescriptorInfo1(regs[base + 14]),
        dcddi2: DeviceDescriptorInfo2(regs[base + 15]),
    }
}

impl Debug {
    /// Decodes the 0x40-byte capability from the dwords at offset `base`.
    pub fn read_at(regs: &[u32], base: usize) -> (r: Self)
        requires
            base + 16 <= regs@.len(),
        ensures
            r == spec_read(regs@, base as int),
    {
        Debug {
            dcid: Id(regs[base]),
            dcdb: Doorbell(regs[base + 1]),
            dcerstsz: EventRingSegmentTableSize(regs[base + 2]),
            dcerstba: EventRingSegmentTableBaseAddress(
                ((regs[base + 5] as u64) << 32) | (regs[base + 4] as u64),
            ),
            dcerdp: EventRingDequeuePointer(
                ((regs[base + 7] as u64) << 32) | (regs[base + 6] as u64),
            ),
            dcctrl: Control(regs[base + 8]),
            dcst: Status(regs[base + 9]),
            dcportsc: PortStatusAndControl(regs[base + 10]),
            dccp: ContextPointer(((regs[base + 13] as u64) << 32) | (regs[base + 12] as u64)),
            dcddi1: DeviceDescriptorInfo1(regs[base + 14]),
            dcddi2: DeviceDescriptorInfo2(regs[base + 15]),
        }
    }
}

} // verus!