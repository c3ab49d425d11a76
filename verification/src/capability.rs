//! Host Controller Capability Registers.

use vstd::prelude::*;

use crate::bits;

verus! {

/// Host Controller Capability Registers, as one snapshot value.
///
/// The caller reads the 0x20-byte capability region once and keeps the
/// decoded snapshot; every address derivation starts from it.
#[derive(Copy, Clone, Debug)]
pub struct Capability {
    /// Capability Registers Length
    pub caplength: CapabilityRegistersLength,
    /// Host Controller Interface Version Number
    pub hciversion: InterfaceVersionNumber,
    /// Structural Parameters 1
    pub hcsparams1: StructuralParameters1,
    /// Structural Parameters 2
    pub hcsparams2: StructuralParameters2,
    /// Structural Parameters 3
    pub hcsparams3: StructuralParameters3,
    /// Capability Parameters 1
    pub hccparams1: CapabilityParameters1,
    /// Doorbell Offset
    pub dboff: DoorbellOffset,
    /// Runtime Register Space Offset
    pub rtsoff: RuntimeRegisterSpaceOffset,
    /// Capability Parameters 2
    pub hccparams2: CapabilityParameters2,
    /// Virtualization Based Trusted IO Register Space Offset
    pub vtiosoff: VirtualizationBasedTrustedIoRegisterSpaceOffset,
}

/// Capability Registers Length: the offset of the Operational Registers from the MMIO base.
#[derive(Copy, Clone, Debug)]
pub struct CapabilityRegistersLength(pub u8);

impl CapabilityRegistersLength {
    /// Returns the raw value.
    pub fn get(self) -> (r: u8)
        ensures
            r == self.0,
    {
        self.0
    }
}

/// Interface Version Number: a BCD encoding of the supported xHCI revision.
#[derive(Copy, Clone, Debug)]
pub struct InterfaceVersionNumber(pub u16);

impl InterfaceVersionNumber {
    /// Returns the raw value.
    pub fn get(self) -> (r: u16)
        ensures
            r == self.0,
    {
        self.0
    }
}

/// Structural Parameters 1
#[derive(Copy, Clone, Debug)]
pub struct StructuralParameters1(pub u32);

impl StructuralParameters1 {
    /// Returns the Number of Device Slots field.
    pub fn number_of_device_slots(&self) -> (r: u8)
        ensures
            r == bits::field32(self.0, 0, 8),
    {
        bits::get_field32(self.0, 0, 8) as u8
    }

    /// Returns the Number of Interrupts field.
    pub fn number_of_interrupts(&self) -> (r: u16)
        ensures
            r == bits::field32(self.0, 8, 11),
    {
        bits::get_field32(self.0, 8, 11) as u16
    }

    /// Returns the Number of Ports field.
    pub fn number_of_ports(&self) -> (r: u8)
        ensures
            r == bits::field32(self.0, 24, 8),
    {
        bits::get_field32(self.0, 24, 8) as u8
    }
}

/// Structural Parameters 2
#[derive(Copy, Clone, Debug)]
pub struct StructuralParameters2(pub u32);

impl StructuralParameters2 {
    /// Returns the Isochronous Scheduling Threshold field.
    pub fn isochronous_scheduling_threshold(&self) -> (r: u8)
        ensures
            r == bits::field32(self.0, 0, 4),
    {
        bits::get_field32(self.0, 0, 4) as u8
    }

    /// Returns the Scratchpad Restore bit.
    pub fn scratchpad_restore(&self) -> (r: bool)
        ensures
            r == bits::bit32(self.0, 26),
    {
        bits::get_bit32(self.0, 26)
    }

    /// Returns the maximum number of elements the Event Ring Segment Table
    /// can contain. The ERST Max field holds the exponent; this method
    /// returns the computed count.
    pub fn event_ring_segment_table_max(self) -> (r: u16)
        ensures
            r == 1u16 << bits::field32(self.0, 4, 4),
    {
        1u16 << bits::get_field32(self.0, 4, 4)
    }

    /// Returns the number of scratchpad buffers the controller needs,
    /// composed from the high and low five-bit halves.
    pub fn max_scratchpad_buffers(self) -> (r: u32)
        ensures
            r == (bits::field32(self.0, 21, 5) << 5) | bits::field32(self.0, 27, 5),
    {
        (bits::get_field32(self.0, 21, 5) << 5) | bits::get_field32(self.0, 27, 5)
    }
}

/// Structural Parameters 3
#[derive(Copy, Clone, Debug)]
pub struct StructuralParameters3(pub u32);

impl StructuralParameters3 {
    /// Returns the U1 Device Exit Latency field.
    pub fn u1_device_exit_latency(&self) -> (r: u8)
        ensures
            r == bits::field32(self.0, 0, 8),
    {
        bits::get_field32(self.0, 0, 8) as u8
    }

    /// Returns the U2 Device Exit Latency field.
    pub fn u2_device_exit_latency(&self) -> (r: u16)
        ensures
            r == bits::field32(self.0, 16, 16),
    {
        bits::get_field32(self.0, 16, 16) as u16
    }
}

/// Capability Parameters 1
#[derive(Copy, Clone, Debug)]
pub struct CapabilityParameters1(pub u32);

impl CapabilityParameters1 {
    /// Returns the 64-bit Addressing Capability bit.
    pub fn addressing_capability(&self) -> (r: bool)
        ensures
            r == bits::bit32(self.0, 0),
    {
        bits::get_bit32(self.0, 0)
    }

    /// Returns the BW Negotiation Capability bit.
    pub fn bw_negotiation_capability(&self) -> (r: bool)
        ensures
            r == bits::bit32(self.0, 1),
    {
        bits::get_bit32(self.0, 1)
    }

    /// Returns the Context Size bit.
    pub fn context_size(&self) -> (r: bool)
        ensures
            r == bits::bit32(self.0, 2),
    {
        bits::get_bit32(self.0, 2)
    }

    /// Returns the Port Power Control bit.
    pub fn port_power_control(&self) -> (r: bool)
        ensures
            r == bits::bit32(self.0, 3),
    {
        bits::get_bit32(self.0, 3)
    }

    /// Returns the Port Indicators bit.
    pub fn port_indicators(&self) -> (r: bool)
        ensures
            r == bits::bit32(self.0, 4),
    {
        bits::get_bit32(self.0, 4)
    }

    /// Returns the Light HC Reset Capability bit.
    pub fn light_hc_reset_capability(&self) -> (r: bool)
        ensures
            r == bits::bit32(self.0, 5),
    {
        bits::get_bit32(self.0, 5)
    }

    /// Returns the Latency Tolerance Messaging Capability bit.
    pub fn latency_tolerance_messaging_capability(&self) -> (r: bool)
        ensures
            r == bits::bit32(self.0, 6),
    {
        bits::get_bit32(self.0, 6)
    }

    /// Returns the No Secondary SID Support bit.
    pub fn no_secondary_sid_support(&self) -> (r: bool)
        ensures
            r == bits::bit32(self.0, 7),
    {
        bits::get_bit32(self.0, 7)
    }

    /// Returns the Parse All Event Data bit.
    pub fn parse_all_event_data(&self) -> (r: bool)
        ensures
            r == bits::bit32(self.0, 8),
    {
        bits::get_bit32(self.0, 8)
    }

    /// Returns the Stopped - Short Packet Capability bit.
    pub fn stopped_short_packet_capability(&self) -> (r: bool)
        ensures
            r == bits::bit32(self.0, 9),
    {
        bits::get_bit32(self.0, 9)
    }

    /// Returns the Stopped EDTLA Capability bit.
    pub fn stopped_edtla_capability(&self) -> (r: bool)
        ensures
            r == bits::bit32(self.0, 10),
    {
        bits::get_bit32(self.0, 10)
    }

    /// Returns the Contiguous Frame ID Capability bit.
    pub fn contiguous_frame_id_capability(&self) -> (r: bool)
        ensures
            r == bits::bit32(self.0, 11),
    {
        bits::get_bit32(self.0, 11)
    }

    /// Returns the Maximum Primary Stream Array Size field.
    pub fn maximum_primary_stream_array_size(&self) -> (r: u8)
        ensures
            r == bits::field32(self.0, 12, 4),
    {
        bits::get_field32(self.0, 12, 4) as u8
    }

    /// Returns the xHCI Extended Capabilities Pointer field.
    pub fn xhci_extended_capabilities_pointer(&self) -> (r: u16)
        ensures
            r == bits::field32(self.0, 16, 16),
    {
        bits::get_field32(self.0, 16, 16) as u16
    }
}

/// Doorbell Offset: the offset of the Doorbell Array from the MMIO base.
#[derive(Copy, Clone, Debug)]
pub struct DoorbellOffset(pub u32);

impl DoorbellOffset {
    /// Returns the raw value.
    pub fn get(self) -> (r: u32)
        ensures
            r == self.0,
    {
        self.0
    }
}

/// Runtime Register Space Offset: the offset of the Runtime Registers from the MMIO base.
#[derive(Copy, Clone, Debug)]
pub struct RuntimeRegisterSpaceOffset(pub u32);

impl RuntimeRegisterSpaceOffset {
    /// Returns the raw value.
    pub fn get(self) -> (r: u32)
        ensures
            r == self.0,
    {
        self.0
    }
}

/// Capability Parameters 2
#[derive(Copy, Clone, Debug)]
pub struct CapabilityParameters2(pub u32);

impl CapabilityParameters2 {
    /// Returns the U3 Entry Capability bit.
    pub fn u3_entry_capability(&self) -> (r: bool)
        ensures
            r == bits::bit32(self.0, 0),
    {
        bits::get_bit32(self.0, 0)
    }

    /// Returns the Configure Endpoint Command Max Exit Latency Too Large Capability bit.
    pub fn configure_endpoint_command_max_exit_latency_too_large_capability(&self) -> (r: bool)
        ensures
            r == bits::bit32(self.0, 1),
    {
        bits::get_bit32(self.0, 1)
    }

    /// Returns the Force Save Context Capability bit.
    pub fn force_save_context_capability(&self) -> (r: bool)
        ensures
            r == bits::bit32(self.0, 2),
    {
        bits::get_bit32(self.0, 2)
    }

    /// Returns the Compliance Transition Capability bit.
    pub fn compliance_transition_capability(&self) -> (r: bool)
        ensures
            r == bits::bit32(self.0, 3),
    {
        bits::get_bit32(self.0, 3)
    }

    /// Returns the Large ESIT Payload Capability bit.
    pub fn large_esit_payload_capability(&self) -> (r: bool)
        ensures
            r == bits::bit32(self.0, 4),
    {
        bits::get_bit32(self.0, 4)
    }

    /// Returns the Configuration Information Capability bit.
    pub fn configuration_information_capability(&self) -> (r: bool)
        ensures
            r == bits::bit32(self.0, 5),
    {
        bits::get_bit32(self.0, 5)
    }

    /// Returns the Extended TBC Capability bit.
    pub fn extended_tbc_capability(&self) -> (r: bool)
        ensures
            r == bits::bit32(self.0, 6),
    {
        bits::get_bit32(self.0, 6)
    }

    /// Returns the Extended TBC TRB Status Capability bit.
    pub fn extended_tbc_trb_status_capability(&self) -> (r: bool)
        ensures
            r == bits::bit32(self.0, 7),
    {
        bits::get_bit32(self.0, 7)
    }

    /// Returns the Get/Set Extended Property Capability bit.
    pub fn get_set_extended_property_capability(&self) -> (r: bool)
        ensures
            r == bits::bit32(self.0, 8),
    {
        bits::get_bit32(self.0, 8)
    }

    /// Returns the Virtualization Based Trusted I/O Capability bit.
    pub fn virtualization_based_trusted_io_capability(&self) -> (r: bool)
        ensures
            r == bits::bit32(self.0, 9),
    {
        bits::get_bit32(self.0, 9)
    }
}

/// Virtualization Based Trusted IO Register Space Offset.
#[derive(Copy, Clone, Debug)]
pub struct VirtualizationBasedTrustedIoRegisterSpaceOffset(pub u32);

impl VirtualizationBasedTrustedIoRegisterSpaceOffset {
    /// Returns the raw value.
    pub fn get(self) -> (r: u32)
        ensures
            r == self.0,
    {
        self.0
    }
}

} // verus!
