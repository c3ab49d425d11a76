//! USB Legacy Support Capability.

use vstd::prelude::*;

use crate::bits;

verus! {

/// The Capability Header part of the USB Legacy Support Capability.
#[derive(Copy, Clone, Debug, PartialEq, Eq, Structural)]
pub struct CapabilityHeader(pub u32);

impl CapabilityHeader {
    /// Returns the HC BIOS Owned Semaphore bit.
    pub fn hc_bios_owned_semaphore(&self) -> (r: bool)
        ensures
            r == bits::bit32(self.0, 16),
    {
        bits::get_bit32(self.0, 16)
    }

    /// Sets the HC BIOS Owned Semaphore bit.
    pub fn set_hc_bios_owned_semaphore(&mut self)
        ensures
            final(self).0 == bits::with_bit32(old(self).0, 16, true),
    {
        self.0 = bits::set_bit32(self.0, 16, true);
    }

    /// Clears the HC BIOS Owned Semaphore bit.
    pub fn clear_hc_bios_owned_semaphore(&mut self)
        ensures
            final(self).0 == bits::with_bit32(old(self).0, 16, false),
    {
        self.0 = bits::set_bit32(self.0, 16, false);
    }

    /// Returns the HC OS Owned Semaphore bit.
    pub fn hc_os_owned_semaphore(&self) -> (r: bool)
        ensures
            r == bits::bit32(self.0, 24),
    {
        bits::get_bit32(self.0, 24)
    }

    /// Sets the HC OS Owned Semaphore bit.
    pub fn set_hc_os_owned_semaphore(&mut self)
        ensures
            final(self).0 == bits::with_bit32(old(self).0, 24, true),
    {
        self.0 = bits::set_bit32(self.0, 24, true);
    }

    /// Clears the HC OS Owned Semaphore bit.
    pub fn clear_hc_os_owned_semaphore(&mut self)
        ensures
            final(self).0 == bits::with_bit32(old(self).0, 24, false),
    {
        self.0 = bits::set_bit32(self.0, 24, false);
    }
}

/// USB Legacy Support Control/Status.
#[derive(Copy, Clone, Debug, PartialEq, Eq, Structural)]
pub struct UsbLegacySupportControlStatus(pub u32);

impl UsbLegacySupportControlStatus {
    /// Returns the USB SMI Enable bit.
    pub fn usb_smi_enable(&self) -> (r: bool)
        ensures
            r == bits::bit32(self.0, 0),
    {
        bits::get_bit32(self.0, 0)
    }

    /// Sets the USB SMI Enable bit.
    pub fn set_usb_smi_enable(&mut self)
        ensures
            final(self).0 == bits::with_bit32(old(self).0, 0, true),
    {
        self.0 = bits::set_bit32(self.0, 0, true);
    }

    /// Clears the USB SMI Enable bit.
    pub fn clear_usb_smi_enable(&mut self)
        ensures
            final(self).0 == bits::with_bit32(old(self).0, 0, false),
    {
        self.0 = bits::set_bit32(self.0, 0, false);
    }

    /// Returns the SMI on Host System Error Enable bit.
    pub fn smi_on_host_system_error_enable(&self) -> (r: bool)
        ensures
            r == bits::bit32(self.0, 4),
    {
        bits::get_bit32(self.0, 4)
    }

    /// Sets the SMI on Host System Error Enable bit.
    pub fn set_smi_on_host_system_error_enable(&mut self)
        ensures
            final(self).0 == bits::with_bit32(old(self).0, 4, true),
    {
        self.0 = bits::set_bit32(self.0, 4, true);
    }

    /// Clears the SMI on Host System Error Enable bit.
    pub fn clear_smi_on_host_system_error_enable(&mut self)
        ensures
            final(self).0 == bits::with_bit32(old(self).0, 4, false),
    {
        self.0 = bits::set_bit32(self.0, 4, false);
    }

    /// Returns the SMI on OS Ownership Enable bit.
    pub fn smi_on_os_ownership_enable(&self) -> (r: bool)
        ensures
            r == bits::bit32(self.0, 13),
    {
        bits::get_bit32(self.0, 13)
    }

    /// Sets the SMI on OS Ownership Enable bit.
    pub fn set_smi_on_os_ownership_enable(&mut self)
        ensures
            final(self).0 == bits::with_bit32(old(self).0, 13, true),
    {
        self.0 = bits::set_bit32(self.0, 13, true);
    }

    /// Clears the SMI on OS Ownership Enable bit.
    pub fn clear_smi_on_os_ownership_enable(&mut self)
        ensures
            final(self).0 == bits::with_bit32(old(self).0, 13, false),
    {
        self.0 = bits::set_bit32(self.0, 13, false);
    }

    /// Returns the SMI on PCI Command Enable bit.
    pub fn smi_on_pci_command_enable(&self) -> (r: bool)
        ensures
            r == bits::bit32(self.0, 14),
    {
        bits::get_bit32(self.0, 14)
    }

    /// Sets the SMI on PCI Command Enable bit.
    pub fn set_smi_on_pci_command_enable(&mut self)
        ensures
            final(self).0 == bits::with_bit32(old(self).0, 14, true),
    {
        self.0 = bits::set_bit32(self.0, 14, true);
    }

    /// Clears the SMI on PCI Command Enable bit.
    pub fn clear_smi_on_pci_command_enable(&mut self)
        ensures
            final(self).0 == bits::with_bit32(old(self).0, 14, false),
    {
        self.0 = bits::set_bit32(self.0, 14, false);
    }

    /// Returns the SMI on BAR Enable bit.
    pub fn smi_on_bar_enable(&self) -> (r: bool)
        ensures
            r == bits::bit32(self.0, 15),
    {
        bits::get_bit32(self.0, 15)
    }

    /// Sets the SMI on BAR Enable bit.
    pub fn set_smi_on_bar_enable(&mut self)
        ensures
            final(self).0 == bits::with_bit32(old(self).0, 15, true),
    {
        self.0 = bits::set_bit32(self.0, 15, true);
    }

    /// Clears the SMI on BAR Enable bit.
    pub fn clear_smi_on_bar_enable(&mut self)
        ensures
            final(self).0 == bits::with_bit32(old(self).0, 15, false),
    {
        self.0 = bits::set_bit32(self.0, 15, false);
    }

    /// Returns the SMI on Event Interrupt bit.
    pub fn smi_on_event_interrupt(&self) -> (r: bool)
        ensures
            r == bits::bit32(self.0, 16),
    {
        bits::get_bit32(self.0, 16)
    }

    /// Returns the SMI on Host System Error bit.
    pub fn smi_on_host_system_error(&self) -> (r: bool)
        ensures
            r == bits::bit32(self.0, 20),
    {
        bits::get_bit32(self.0, 20)
    }

    /// Returns the SMI on OS Ownership Change bit.
    pub fn smi_on_os_ownership_change(&self) -> (r: bool)
        ensures
            r == bits::bit32(self.0, 29),
    {
        bits::get_bit32(self.0, 29)
    }

    /// Clears the SMI on OS Ownership Change bit (on the device, software clears it by writing 1).
    pub fn clear_smi_on_os_ownership_change(&mut self)
        ensures
            final(self).0 == bits::with_bit32(old(self).0, 29, false),
    {
        self.0 = bits::set_bit32(self.0, 29, false);
    }

    /// Returns the SMI on PCI Command bit.
    pub fn smi_on_pci_command(&self) -> (r: bool)
        ensures
            r == bits::bit32(self.0, 30),
    {
        bits::get_bit32(self.0, 30)
    }

    /// Clears the SMI on PCI Command bit (on the device, software clears it by writing 1).
    pub fn clear_smi_on_pci_command(&mut self)
        ensures
            final(self).0 == bits::with_bit32(old(self).0, 30, false),
    {
        self.0 = bits::set_bit32(self.0, 30, false);
    }

    /// Returns the SMI on BAR bit.
    pub fn smi_on_bar(&self) -> (r: bool)
        ensures
            r == bits::bit32(self.0, 31),
    {
        bits::get_bit32(self.0, 31)
    }

    /// Clears the SMI on BAR bit (on the device, software clears it by writing 1).
    pub fn clear_smi_on_bar(&mut self)
        ensures
            final(self).0 == bits::with_bit32(old(self).0, 31, false),
    {
        self.0 = bits::set_bit32(self.0, 31, false);
    }
}

/// USB Legacy Support Capability: the capability header with its two
/// ownership semaphores, followed by the control/status register.
#[derive(Copy, Clone, Debug, PartialEq, Eq, Structural)]
pub struct UsbLegacySupport {
    /// The Capability Header part.
    pub cap_header: CapabilityHeader,
    /// USB Legacy Support Control/Status.
    pub usblegctlsts: UsbLegacySupportControlStatus,
}

/// The USB Legacy Support value encoded at dword offset `base` of `regs`.
pub open spec fn spec_read(regs: Seq<u32>, base: int) -> UsbLegacySupport {
    UsbLegacySupport {
        cap_header: CapabilityHeader(regs[base]),
        usblegctlsts: UsbLegacySupportControlStatus(regs[base + 1]),
    }
}

impl UsbLegacySupport {
    /// Decodes the capability from the dwords at offset `base`.
    pub fn read_at(regs: &[u32], base: usize) -> (r: Self)
        requires
            base + 2 <= regs@.len(),
        ensures
            r == spec_read(regs@, base as int),
    {
        UsbLegacySupport {
            cap_header: CapabilityHeader(regs[base]),
            usblegctlsts: UsbLegacySupportControlStatus(regs[base + 1]),
        }
    }
}

} // verus!