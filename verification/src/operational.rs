//! Host Controller Operational Registers.

use vstd::prelude::*;

use crate::bits;
use crate::error::Error;

verus! {

/// Host Controller Operational Registers, as one snapshot value.
///
/// This struct does not contain the Port Register Sets; see
/// [`PortRegisterSet`].
#[derive(Copy, Clone, Debug)]
pub struct Operational {
    /// USB Command Register
    pub usbcmd: UsbCommandRegister,
    /// USB Status Register
    pub usbsts: UsbStatusRegister,
    /// Page Size Register
    pub pagesize: PageSizeRegister,
    /// Device Notification Control
    pub dnctrl: DeviceNotificationControl,
    /// Command Ring Control Register
    pub crcr: CommandRingControlRegister,
    /// Device Context Base Address Array Pointer Register
    pub dcbaap: DeviceContextBaseAddressArrayPointerRegister,
    /// Configure Register
    pub config: ConfigureRegister,
}

/// USB Command Register
#[derive(Copy, Clone, Debug)]
pub struct UsbCommandRegister(pub u32);

impl UsbCommandRegister {
    /// Returns the Run/Stop bit.
    pub fn run_stop(&self) -> (r: bool)
        ensures
            r == bits::bit32(self.0, 0),
    {
        bits::get_bit32(self.0, 0)
    }

    /// Sets the Run/Stop bit.
    pub fn set_run_stop(&mut self)
        ensures
            final(self).0 == bits::with_bit32(old(self).0, 0, true),
    {
        self.0 = bits::set_bit32(self.0, 0, true);
    }

    /// Clears the Run/Stop bit.
    pub fn clear_run_stop(&mut self)
        ensures
            final(self).0 == bits::with_bit32(old(self).0, 0, false),
    {
        self.0 = bits::set_bit32(self.0, 0, false);
    }

    /// Returns the Host Controller Reset bit.
    pub fn host_controller_reset(&self) -> (r: bool)
        ensures
            r == bits::bit32(self.0, 1),
    {
        bits::get_bit32(self.0, 1)
    }

    /// Sets the Host Controller Reset bit.
    pub fn set_host_controller_reset(&mut self)
        ensures
            final(self).0 == bits::with_bit32(old(self).0, 1, true),
    {
        self.0 = bits::set_bit32(self.0, 1, true);
    }

    /// Clears the Host Controller Reset bit.
    pub fn clear_host_controller_reset(&mut self)
        ensures
            final(self).0 == bits::with_bit32(old(self).0, 1, false),
    {
        self.0 = bits::set_bit32(self.0, 1, false);
    }

    /// Returns the Interrupter Enable bit.
    pub fn interrupter_enable(&self) -> (r: bool)
        ensures
            r == bits::bit32(self.0, 2),
    {
        bits::get_bit32(self.0, 2)
    }

    /// Sets the Interrupter Enable bit.
    pub fn set_interrupter_enable(&mut self)
        ensures
            final(self).0 == bits::with_bit32(old(self).0, 2, true),
    {
        self.0 = bits::set_bit32(self.0, 2, true);
    }

    /// Clears the Interrupter Enable bit.
    pub fn clear_interrupter_enable(&mut self)
        ensures
            final(self).0 == bits::with_bit32(old(self).0, 2, false),
    {
        self.0 = bits::set_bit32(self.0, 2, false);
    }

    /// Returns the Host System Error Enable bit.
    pub fn host_system_error_enable(&self) -> (r: bool)
        ensures
            r == bits::bit32(self.0, 3),
    {
        bits::get_bit32(self.0, 3)
    }

    /// Sets the Host System Error Enable bit.
    pub fn set_host_system_error_enable(&mut self)
        ensures
            final(self).0 == bits::with_bit32(old(self).0, 3, true),
    {
        self.0 = bits::set_bit32(self.0, 3, true);
    }

    /// Clears the Host System Error Enable bit.
    pub fn clear_host_system_error_enable(&mut self)
        ensures
            final(self).0 == bits::with_bit32(old(self).0, 3, false),
    {
        self.0 = bits::set_bit32(self.0, 3, false);
    }

    /// Returns the Light Host Controller Reset bit.
    pub fn light_host_controller_reset(&self) -> (r: bool)
        ensures
            r == bits::bit32(self.0, 7),
    {
        bits::get_bit32(self.0, 7)
    }

    /// Sets the Light Host Controller Reset bit.
    pub fn set_light_host_controller_reset(&mut self)
        ensures
            final(self).0 == bits::with_bit32(old(self).0, 7, true),
    {
        self.0 = bits::set_bit32(self.0, 7, true);
    }

    /// Clears the Light Host Controller Reset bit.
    pub fn clear_light_host_controller_reset(&mut self)
        ensures
            final(self).0 == bits::with_bit32(old(self).0, 7, false),
    {
        self.0 = bits::set_bit32(self.0, 7, false);
    }

    /// Returns the Controller Save State bit.
    pub fn controller_save_state(&self) -> (r: bool)
        ensures
            r == bits::bit32(self.0, 8),
    {
        bits::get_bit32(self.0, 8)
    }

    /// Sets the Controller Save State bit.
    pub fn set_controller_save_state(&mut self)
        ensures
            final(self).0 == bits::with_bit32(old(self).0, 8, true),
    {
        self.0 = bits::set_bit32(self.0, 8, true);
    }

    /// Clears the Controller Save State bit.
    pub fn clear_controller_save_state(&mut self)
        ensures
            final(self).0 == bits::with_bit32(old(self).0, 8, false),
    {
        self.0 = bits::set_bit32(self.0, 8, false);
    }

    /// Returns the Controller Restore State bit.
    pub fn controller_restore_state(&self) -> (r: bool)
        ensures
            r == bits::bit32(self.0, 9),
    {
        bits::get_bit32(self.0, 9)
    }

    /// Sets the Controller Restore State bit.
    pub fn set_controller_restore_state(&mut self)
        ensures
            final(self).0 == bits::with_bit32(old(self).0, 9, true),
    {
        self.0 = bits::set_bit32(self.0, 9, true);
    }

    /// Clears the Controller Restore State bit.
    pub fn clear_controller_restore_state(&mut self)
        ensures
            final(self).0 == bits::with_bit32(old(self).0, 9, false),
    {
        self.0 = bits::set_bit32(self.0, 9, false);
    }

    /// Returns the Enable Wrap Event bit.
    pub fn enable_wrap_event(&self) -> (r: bool)
        ensures
            r == bits::bit32(self.0, 10),
    {
        bits::get_bit32(self.0, 10)
    }

    /// Sets the Enable Wrap Event bit.
    pub fn set_enable_wrap_event(&mut self)
        ensures
            final(self).0 == bits::with_bit32(old(self).0, 10, true),
    {
        self.0 = bits::set_bit32(self.0, 10, true);
    }

    /// Clears the Enable Wrap Event bit.
    pub fn clear_enable_wrap_event(&mut self)
        ensures
            final(self).0 == bits::with_bit32(old(self).0, 10, false),
    {
        self.0 = bits::set_bit32(self.0, 10, false);
    }

    /// Returns the Enable U3 MFINDEX Stop bit.
    pub fn enable_u3_mfindex_stop(&self) -> (r: bool)
        ensures
            r == bits::bit32(self.0, 11),
    {
        bits::get_bit32(self.0, 11)
    }

    /// Sets the Enable U3 MFINDEX Stop bit.
    pub fn set_enable_u3_mfindex_stop(&mut self)
        ensures
            final(self).0 == bits::with_bit32(old(self).0, 11, true),
    {
        self.0 = bits::set_bit32(self.0, 11, true);
    }

    /// Clears the Enable U3 MFINDEX Stop bit.
    pub fn clear_enable_u3_mfindex_stop(&mut self)
        ensures
            final(self).0 == bits::with_bit32(old(self).0, 11, false),
    {
        self.0 = bits::set_bit32(self.0, 11, false);
    }

    /// Returns the CEM Enable bit.
    pub fn cem_enable(&self) -> (r: bool)
        ensures
            r == bits::bit32(self.0, 13),
    {
        bits::get_bit32(self.0, 13)
    }

    /// Sets the CEM Enable bit.
    pub fn set_cem_enable(&mut self)
        ensures
            final(self).0 == bits::with_bit32(old(self).0, 13, true),
    {
        self.0 = bits::set_bit32(self.0, 13, true);
    }

    /// Clears the CEM Enable bit.
    pub fn clear_cem_enable(&mut self)
        ensures
            final(self).0 == bits::with_bit32(old(self).0, 13, false),
    {
        self.0 = bits::set_bit32(self.0, 13, false);
    }

    /// Returns the Extended TBC Enable bit.
    pub fn extended_tbc_enable(&self) -> (r: bool)
        ensures
            r == bits::bit32(self.0, 14),
    {
        bits::get_bit32(self.0, 14)
    }

    /// Returns the Extended TBC TRB Status Enable bit.
    pub fn extended_tbc_trb_status_enable(&self) -> (r: bool)
        ensures
            r == bits::bit32(self.0, 15),
    {
        bits::get_bit32(self.0, 15)
    }

    /// Returns the VTIO Enable bit.
    pub fn vtio_enable(&self) -> (r: bool)
        ensures
            r == bits::bit32(self.0, 16),
    {
        bits::get_bit32(self.0, 16)
    }

    /// Sets the VTIO Enable bit.
    pub fn set_vtio_enable(&mut self)
        ensures
            final(self).0 == bits::with_bit32(old(self).0, 16, true),
    {
        self.0 = bits::set_bit32(self.0, 16, true);
    }

    /// Clears the VTIO Enable bit.
    pub fn clear_vtio_enable(&mut self)
        ensures
            final(self).0 == bits::with_bit32(old(self).0, 16, false),
    {
        self.0 = bits::set_bit32(self.0, 16, false);
    }
}

/// USB Status Register
#[derive(Copy, Clone, Debug)]
pub struct UsbStatusRegister(pub u32);

impl UsbStatusRegister {
    /// Returns the HC Halted bit.
    pub fn hc_halted(&self) -> (r: bool)
        ensures
            r == bits::bit32(self.0, 0),
    {
        bits::get_bit32(self.0, 0)
    }

    /// Returns the Host System Error bit.
    pub fn host_system_error(&self) -> (r: bool)
        ensures
            r == bits::bit32(self.0, 2),
    {
        bits::get_bit32(self.0, 2)
    }

    /// Clears the Host System Error bit (on the device, software clears it by writing 1).
    pub fn clear_host_system_error(&mut self)
        ensures
            final(self).0 == bits::with_bit32(old(self).0, 2, false),
    {
        self.0 = bits::set_bit32(self.0, 2, false);
    }

    /// Returns the Event Interrupt bit.
    pub fn event_interrupt(&self) -> (r: bool)
        ensures
            r == bits::bit32(self.0, 3),
    {
        bits::get_bit32(self.0, 3)
    }

    /// Clears the Event Interrupt bit (on the device, software clears it by writing 1).
    pub fn clear_event_interrupt(&mut self)
        ensures
            final(self).0 == bits::with_bit32(old(self).0, 3, false),
    {
        self.0 = bits::set_bit32(self.0, 3, false);
    }

    /// Returns the Port Change Detect bit.
    pub fn port_change_detect(&self) -> (r: bool)
        ensures
            r == bits::bit32(self.0, 4),
    {
        bits::get_bit32(self.0, 4)
    }

    /// Clears the Port Change Detect bit (on the device, software clears it by writing 1).
    pub fn clear_port_change_detect(&mut self)
        ensures
            final(self).0 == bits::with_bit32(old(self).0, 4, false),
    {
        self.0 = bits::set_bit32(self.0, 4, false);
    }

    /// Returns the Save State Status bit.
    pub fn save_state_status(&self) -> (r: bool)
        ensures
            r == bits::bit32(self.0, 8),
    {
        bits::get_bit32(self.0, 8)
    }

    /// Returns the Restore State Status bit.
    pub fn restore_state_status(&self) -> (r: bool)
        ensures
            r == bits::bit32(self.0, 9),
    {
        bits::get_bit32(self.0, 9)
    }

    /// Returns the Save/Restore Error bit.
    pub fn save_restore_error(&self) -> (r: bool)
        ensures
            r == bits::bit32(self.0, 10),
    {
        bits::get_bit32(self.0, 10)
    }

    /// Clears the Save/Restore Error bit (on the device, software clears it by writing 1).
    pub fn clear_save_restore_error(&mut self)
        ensures
            final(self).0 == bits::with_bit32(old(self).0, 10, false),
    {
        self.0 = bits::set_bit32(self.0, 10, false);
    }

    /// Returns the Controller Not Ready bit.
    pub fn controller_not_ready(&self) -> (r: bool)
        ensures
            r == bits::bit32(self.0, 11),
    {
        bits::get_bit32(self.0, 11)
    }

    /// Returns the Host Controller Error bit.
    pub fn host_controller_error(&self) -> (r: bool)
        ensures
            r == bits::bit32(self.0, 12),
    {
        bits::get_bit32(self.0, 12)
    }
}

/// Page Size Register
#[derive(Copy, Clone, Debug)]
pub struct PageSizeRegister(pub u32);

impl PageSizeRegister {
    /// Returns the page sizes the controller supports, one flag bit per
    /// size. Only the low 16 bits of the register are defined; the upper
    /// bits read as zero on conforming controllers.
    pub fn get(self) -> (r: u16)
        requires
            self.0 <= 0xffff,
        ensures
            r == self.0,
    {
        self.0 as u16
    }
}

/// Device Notification Control
#[derive(Copy, Clone, Debug)]
pub struct DeviceNotificationControl(pub u32);

impl DeviceNotificationControl {
    /// Returns the `i`th Notification Enable bit. An index of 16 or above
    /// is rejected.
    pub fn get(self, i: usize) -> (r: Result<bool, Error>)
        ensures
            i >= 16 ==> r == Err::<bool, Error>(Error::NotificationIndexOutOfRange),
            i < 16 ==> r == Ok::<bool, Error>(bits::bit32(self.0, i as u32)),
    {
        if i >= 16 {
            Err(Error::NotificationIndexOutOfRange)
        } else {
            Ok(bits::get_bit32(self.0, i as u32))
        }
    }

    /// Sets the `i`th Notification Enable bit. An index of 16 or above is
    /// rejected and leaves the register unchanged.
    pub fn set(&mut self, i: usize) -> (r: Result<(), Error>)
        ensures
            i >= 16 ==> r == Err::<(), Error>(Error::NotificationIndexOutOfRange)
                && final(self).0 == old(self).0,
            i < 16 ==> r == Ok::<(), Error>(())
                && final(self).0 == bits::with_bit32(old(self).0, i as u32, true),
    {
        if i >= 16 {
            Err(Error::NotificationIndexOutOfRange)
        } else {
            self.0 = bits::set_bit32(self.0, i as u32, true);
            Ok(())
        }
    }

    /// Clears the `i`th Notification Enable bit. An index of 16 or above is
    /// rejected and leaves the register unchanged.
    pub fn clear(&mut self, i: usize) -> (r: Result<(), Error>)
        ensures
            i >= 16 ==> r == Err::<(), Error>(Error::NotificationIndexOutOfRange)
                && final(self).0 == old(self).0,
            i < 16 ==> r == Ok::<(), Error>(())
                && final(self).0 == bits::with_bit32(old(self).0, i as u32, false),
    {
        if i >= 16 {
            Err(Error::NotificationIndexOutOfRange)
        } else {
            self.0 = bits::set_bit32(self.0, i as u32, false);
            Ok(())
        }
    }
}

/// Command Ring Control Register
#[derive(Copy, Clone, Debug)]
pub struct CommandRingControlRegister(pub u64);

impl CommandRingControlRegister {
    /// Sets the Ring Cycle State bit.
    pub fn set_ring_cycle_state(&mut self)
        ensures
            final(self).0 == bits::with_bit64(old(self).0, 0, true),
    {
        self.0 = bits::set_bit64(self.0, 0, true);
    }

    /// Clears the Ring Cycle State bit.
    pub fn clear_ring_cycle_state(&mut self)
        ensures
            final(self).0 == bits::with_bit64(old(self).0, 0, false),
    {
        self.0 = bits::set_bit64(self.0, 0, false);
    }

    /// Sets the Command Stop bit (on the device, software sets it by writing 1).
    pub fn set_command_stop(&mut self)
        ensures
            final(self).0 == bits::with_bit64(old(self).0, 1, true),
    {
        self.0 = bits::set_bit64(self.0, 1, true);
    }

    /// Sets the Command Abort bit (on the device, software sets it by writing 1).
    pub fn set_command_abort(&mut self)
        ensures
            final(self).0 == bits::with_bit64(old(self).0, 2, true),
    {
        self.0 = bits::set_bit64(self.0, 2, true);
    }

    /// Returns the Command Ring Running bit.
    pub fn command_ring_running(&self) -> (r: bool)
        ensures
            r == bits::bit64(self.0, 3),
    {
        bits::get_bit64(self.0, 3)
    }

    /// Returns the Command Ring Pointer, with the low 6 bits read as zero.
    pub fn command_ring_pointer(&self) -> (r: u64)
        ensures
            r == self.0 & !bits::mask64(6),
    {
        self.0 & !bits::mask64_exec(6)
    }

    /// Sets the Command Ring Pointer. The value must be 64-byte aligned; a misaligned
    /// value is rejected and the register is left unchanged.
    pub fn set_command_ring_pointer(&mut self, v: u64) -> (r: Result<(), Error>)
        ensures
            v & bits::mask64(6) != 0 ==> r == Err::<(), Error>(Error::Misaligned)
                && final(self).0 == old(self).0,
            v & bits::mask64(6) == 0 ==> r == Ok::<(), Error>(())
                && final(self).0 == (old(self).0 & bits::mask64(6)) | v,
    {
        let m: u64 = bits::mask64_exec(6);
        if v & m != 0 {
            Err(Error::Misaligned)
        } else {
            self.0 = (self.0 & m) | v;
            Ok(())
        }
    }
}

/// Device Context Base Address Array Pointer Register
#[derive(Copy, Clone, Debug, Default)]
pub struct DeviceContextBaseAddressArrayPointerRegister(pub u64);

impl DeviceContextBaseAddressArrayPointerRegister {
    /// Returns the Device Context Base Address Array Pointer, with the low 6 bits read as zero.
    pub fn get(&self) -> (r: u64)
        ensures
            r == self.0 & !bits::mask64(6),
    {
        self.0 & !bits::mask64_exec(6)
    }

    /// Sets the Device Context Base Address Array Pointer. The value must be 64-byte aligned; a misaligned
    /// value is rejected and the register is left unchanged.
    pub fn set(&mut self, v: u64) -> (r: Result<(), Error>)
        ensures
            v & bits::mask64(6) != 0 ==> r == Err::<(), Error>(Error::Misaligned)
                && final(self).0 == old(self).0,
            v & bits::mask64(6) == 0 ==> r == Ok::<(), Error>(())
                && final(self).0 == (old(self).0 & bits::mask64(6)) | v,
    {
        let m: u64 = bits::mask64_exec(6);
        if v & m != 0 {
            Err(Error::Misaligned)
        } else {
            self.0 = (self.0 & m) | v;
            Ok(())
        }
    }
}

/// Configure Register
#[derive(Copy, Clone, Debug)]
pub struct ConfigureRegister(pub u32);

impl ConfigureRegister {
    /// Returns the Max Device Slots Enabled field.
    pub fn max_device_slots_enabled(&self) -> (r: u8)
        ensures
            r == bits::field32(self.0, 0, 8),
    {
        bits::get_field32(self.0, 0, 8) as u8
    }

    /// Sets the Max Device Slots Enabled field.
    pub fn set_max_device_slots_enabled(&mut self, v: u8)
        ensures
            final(self).0 == bits::with_field32(old(self).0, v as u32, 0, 8),
    {
        self.0 = bits::set_field32(self.0, v as u32, 0, 8);
    }

    /// Returns the U3 Entry Enable bit.
    pub fn u3_entry_enable(&self) -> (r: bool)
        ensures
            r == bits::bit32(self.0, 8),
    {
        bits::get_bit32(self.0, 8)
    }

    /// Sets the U3 Entry Enable bit.
    pub fn set_u3_entry_enable(&mut self)
        ensures
            final(self).0 == bits::with_bit32(old(self).0, 8, true),
    {
        self.0 = bits::set_bit32(self.0, 8, true);
    }

    /// Clears the U3 Entry Enable bit.
    pub fn clear_u3_entry_enable(&mut self)
        ensures
            final(self).0 == bits::with_bit32(old(self).0, 8, false),
    {
        self.0 = bits::set_bit32(self.0, 8, false);
    }

    /// Returns the Configuration Information Enable bit.
    pub fn configuration_information_enable(&self) -> (r: bool)
        ensures
            r == bits::bit32(self.0, 9),
    {
        bits::get_bit32(self.0, 9)
    }

    /// Sets the Configuration Information Enable bit.
    pub fn set_configuration_information_enable(&mut self)
        ensures
            final(self).0 == bits::with_bit32(old(self).0, 9, true),
    {
        self.0 = bits::set_bit32(self.0, 9, true);
    }

    /// Clears the Configuration Information Enable bit.
    pub fn clear_configuration_information_enable(&mut self)
        ensures
            final(self).0 == bits::with_bit32(old(self).0, 9, false),
    {
        self.0 = bits::set_bit32(self.0, 9, false);
    }
}

/// Port Register Set
#[derive(Copy, Clone, Debug)]
pub struct PortRegisterSet {
    /// Port Status and Control Register
    pub portsc: PortStatusAndControlRegister,
    /// Port PM Status and Control Register
    pub portpmsc: PortPowerManagementStatusAndControlRegister,
    /// Port Link Info Register
    pub portli: PortLinkInfoRegister,
    /// Port Hardware LPM Control Register
    pub porthlpmc: PortHardwareLpmControlRegister,
}

/// Port Status and Control Register
#[derive(Copy, Clone, Debug)]
pub struct PortStatusAndControlRegister(pub u32);

impl PortStatusAndControlRegister {
    /// Returns the Current Connect Status bit.
    pub fn current_connect_status(&self) -> (r: bool)
        ensures
            r == bits::bit32(self.0, 0),
    {
        bits::get_bit32(self.0, 0)
    }

    /// Returns the Port Enabled/Disabled bit.
    pub fn port_enabled_disabled(&self) -> (r: bool)
        ensures
            r == bits::bit32(self.0, 1),
    {
        bits::get_bit32(self.0, 1)
    }

    /// Clears the Port Enabled/Disabled bit (on the device, software clears it by writing 1).
    pub fn clear_port_enabled_disabled(&mut self)
        ensures
            final(self).0 == bits::with_bit32(old(self).0, 1, false),
    {
        self.0 = bits::set_bit32(self.0, 1, false);
    }

    /// Returns the Over-current Active bit.
    pub fn over_current_active(&self) -> (r: bool)
        ensures
            r == bits::bit32(self.0, 3),
    {
        bits::get_bit32(self.0, 3)
    }

    /// Returns the Port Reset bit.
    pub fn port_reset(&self) -> (r: bool)
        ensures
            r == bits::bit32(self.0, 4),
    {
        bits::get_bit32(self.0, 4)
    }

    /// Sets the Port Reset bit (on the device, software sets it by writing 1).
    pub fn set_port_reset(&mut self)
        ensures
            final(self).0 == bits::with_bit32(old(self).0, 4, true),
    {
        self.0 = bits::set_bit32(self.0, 4, true);
    }

    /// Returns the Port Link State field.
    pub fn port_link_state(&self) -> (r: u8)
        ensures
            r == bits::field32(self.0, 5, 4),
    {
        bits::get_field32(self.0, 5, 4) as u8
    }

    /// Sets the Port Link State field.
    pub fn set_port_link_state(&mut self, v: u8)
        requires
            v <= 0xf,
        ensures
            final(self).0 == bits::with_field32(old(self).0, v as u32, 5, 4),
    {
        self.0 = bits::set_field32(self.0, v as u32, 5, 4);
    }

    /// Returns the Port Power bit.
    pub fn port_power(&self) -> (r: bool)
        ensures
            r == bits::bit32(self.0, 9),
    {
        bits::get_bit32(self.0, 9)
    }

    /// Sets the Port Power bit.
    pub fn set_port_power(&mut self)
        ensures
            final(self).0 == bits::with_bit32(old(self).0, 9, true),
    {
        self.0 = bits::set_bit32(self.0, 9, true);
    }

    /// Clears the Port Power bit.
    pub fn clear_port_power(&mut self)
        ensures
            final(self).0 == bits::with_bit32(old(self).0, 9, false),
    {
        self.0 = bits::set_bit32(self.0, 9, false);
    }

    /// Returns the Port Speed field.
    pub fn port_speed(&self) -> (r: u8)
        ensures
            r == bits::field32(self.0, 10, 4),
    {
        bits::get_field32(self.0, 10, 4) as u8
    }

    /// Returns the Port Indicator Control field. Every two-bit pattern is
    /// a defined indicator value.
    pub fn port_indicator_control(&self) -> (r: PortIndicator)
        ensures
            Some(r) == PortIndicator::spec_from(bits::field32(self.0, 14, 2)),
    {
        match bits::get_field32(self.0, 14, 2) {
            0u32 => PortIndicator::Off,
            1u32 => PortIndicator::Amber,
            2u32 => PortIndicator::Green,
            _ => PortIndicator::Undefined,
        }
    }

    /// Sets the Port Indicator Control field.
    pub fn set_port_indicator_control(&mut self, i: PortIndicator)
        ensures
            final(self).0 == bits::with_field32(old(self).0, i.spec_value(), 14, 2),
    {
        let v: u32 = i.value();
        self.0 = bits::set_field32(self.0, v, 14, 2);
    }

    /// Returns the Port Link State Write Strobe bit.
    pub fn port_link_state_write_strobe(&self) -> (r: bool)
        ensures
            r == bits::bit32(self.0, 16),
    {
        bits::get_bit32(self.0, 16)
    }

    /// Sets the Port Link State Write Strobe bit.
    pub fn set_port_link_state_write_strobe(&mut self)
        ensures
            final(self).0 == bits::with_bit32(old(self).0, 16, true),
    {
        self.0 = bits::set_bit32(self.0, 16, true);
    }

    /// Clears the Port Link State Write Strobe bit.
    pub fn clear_port_link_state_write_strobe(&mut self)
        ensures
            final(self).0 == bits::with_bit32(old(self).0, 16, false),
    {
        self.0 = bits::set_bit32(self.0, 16, false);
    }

    /// Returns the Connect Status Change bit.
    pub fn connect_status_change(&self) -> (r: bool)
        ensures
            r == bits::bit32(self.0, 17),
    {
        bits::get_bit32(self.0, 17)
    }

    /// Clears the Connect Status Change bit (on the device, software clears it by writing 1).
    pub fn clear_connect_status_change(&mut self)
        ensures
            final(self).0 == bits::with_bit32(old(self).0, 17, false),
    {
        self.0 = bits::set_bit32(self.0, 17, false);
    }

    /// Returns the Port Enabled/Disabled Change bit.
    pub fn port_enabled_disabled_change(&self) -> (r: bool)
        ensures
            r == bits::bit32(self.0, 18),
    {
        bits::get_bit32(self.0, 18)
    }

    /// Clears the Port Enabled/Disabled Change bit (on the device, software clears it by writing 1).
    pub fn clear_port_enabled_disabled_change(&mut self)
        ensures
            final(self).0 == bits::with_bit32(old(self).0, 18, false),
    {
        self.0 = bits::set_bit32(self.0, 18, false);
    }

    /// Returns the Warm Port Reset Change bit.
    pub fn warm_port_reset_change(&self) -> (r: bool)
        ensures
            r == bits::bit32(self.0, 19),
    {
        bits::get_bit32(self.0, 19)
    }

    /// Clears the Warm Port Reset Change bit (on the device, software clears it by writing 1).
    pub fn clear_warm_port_reset_change(&mut self)
        ensures
            final(self).0 == bits::with_bit32(old(self).0, 19, false),
    {
        self.0 = bits::set_bit32(self.0, 19, false);
    }

    /// Returns the Over-Current Change bit.
    pub fn over_current_change(&self) -> (r: bool)
        ensures
            r == bits::bit32(self.0, 20),
    {
        bits::get_bit32(self.0, 20)
    }

    /// Clears the Over-Current Change bit (on the device, software clears it by writing 1).
    pub fn clear_over_current_change(&mut self)
        ensures
            final(self).0 == bits::with_bit32(old(self).0, 20, false),
    {
        self.0 = bits::set_bit32(self.0, 20, false);
    }

    /// Returns the Port Reset Change bit.
    pub fn port_reset_change(&self) -> (r: bool)
        ensures
            r == bits::bit32(self.0, 21),
    {
        bits::get_bit32(self.0, 21)
    }

    /// Clears the Port Reset Change bit (on the device, software clears it by writing 1).
    pub fn clear_port_reset_change(&mut self)
        ensures
            final(self).0 == bits::with_bit32(old(self).0, 21, false),
    {
        self.0 = bits::set_bit32(self.0, 21, false);
    }

    /// Returns the Port Link State Change bit.
    pub fn port_link_state_change(&self) -> (r: bool)
        ensures
            r == bits::bit32(self.0, 22),
    {
        bits::get_bit32(self.0, 22)
    }

    /// Clears the Port Link State Change bit (on the device, software clears it by writing 1).
    pub fn clear_port_link_state_change(&mut self)
        ensures
            final(self).0 == bits::with_bit32(old(self).0, 22, false),
    {
        self.0 = bits::set_bit32(self.0, 22, false);
    }

    /// Returns the Port Config Error Change bit.
    pub fn port_config_error_change(&self) -> (r: bool)
        ensures
            r == bits::bit32(self.0, 23),
    {
        bits::get_bit32(self.0, 23)
    }

    /// Clears the Port Config Error Change bit (on the device, software clears it by writing 1).
    pub fn clear_port_config_error_change(&mut self)
        ensures
            final(self).0 == bits::with_bit32(old(self).0, 23, false),
    {
        self.0 = bits::set_bit32(self.0, 23, false);
    }

    /// Returns the Cold Attach Status bit.
    pub fn cold_attach_status(&self) -> (r: bool)
        ensures
            r == bits::bit32(self.0, 24),
    {
        bits::get_bit32(self.0, 24)
    }

    /// Returns the Wake on Connect Enable bit.
    pub fn wake_on_connect_enable(&self) -> (r: bool)
        ensures
            r == bits::bit32(self.0, 25),
    {
        bits::get_bit32(self.0, 25)
    }

    /// Sets the Wake on Connect Enable bit.
    pub fn set_wake_on_connect_enable(&mut self)
        ensures
            final(self).0 == bits::with_bit32(old(self).0, 25, true),
    {
        self.0 = bits::set_bit32(self.0, 25, true);
    }

    /// Clears the Wake on Connect Enable bit.
    pub fn clear_wake_on_connect_enable(&mut self)
        ensures
            final(self).0 == bits::with_bit32(old(self).0, 25, false),
    {
        self.0 = bits::set_bit32(self.0, 25, false);
    }

    /// Returns the Wake on Disconnect Enable bit.
    pub fn wake_on_disconnect_enable(&self) -> (r: bool)
        ensures
            r == bits::bit32(self.0, 26),
    {
        bits::get_bit32(self.0, 26)
    }

    /// Sets the Wake on Disconnect Enable bit.
    pub fn set_wake_on_disconnect_enable(&mut self)
        ensures
            final(self).0 == bits::with_bit32(old(self).0, 26, true),
    {
        self.0 = bits::set_bit32(self.0, 26, true);
    }

    /// Clears the Wake on Disconnect Enable bit.
    pub fn clear_wake_on_disconnect_enable(&mut self)
        ensures
            final(self).0 == bits::with_bit32(old(self).0, 26, false),
    {
        self.0 = bits::set_bit32(self.0, 26, false);
    }

    /// Returns the Wake on Over-Current Enable bit.
    pub fn wake_on_over_current_enable(&self) -> (r: bool)
        ensures
            r == bits::bit32(self.0, 27),
    {
        bits::get_bit32(self.0, 27)
    }

    /// Sets the Wake on Over-Current Enable bit.
    pub fn set_wake_on_over_current_enable(&mut self)
        ensures
            final(self).0 == bits::with_bit32(old(self).0, 27, true),
    {
        self.0 = bits::set_bit32(self.0, 27, true);
    }

    /// Clears the Wake on Over-Current Enable bit.
    pub fn clear_wake_on_over_current_enable(&mut self)
        ensures
            final(self).0 == bits::with_bit32(old(self).0, 27, false),
    {
        self.0 = bits::set_bit32(self.0, 27, false);
    }

    /// Returns the Device Removable bit.
    pub fn device_removable(&self) -> (r: bool)
        ensures
            r == bits::bit32(self.0, 30),
    {
        bits::get_bit32(self.0, 30)
    }

    /// Returns the Warm Port Reset bit.
    pub fn warm_port_reset(&self) -> (r: bool)
        ensures
            r == bits::bit32(self.0, 31),
    {
        bits::get_bit32(self.0, 31)
    }

    /// Sets the Warm Port Reset bit (on the device, software sets it by writing 1).
    pub fn set_warm_port_reset(&mut self)
        ensures
            final(self).0 == bits::with_bit32(old(self).0, 31, true),
    {
        self.0 = bits::set_bit32(self.0, 31, true);
    }
}

/// Port Power Management Status and Control Register
#[derive(Copy, Clone, Debug)]
pub struct PortPowerManagementStatusAndControlRegister(pub u32);

impl PortPowerManagementStatusAndControlRegister {
    /// Returns the U1 Timeout (**only valid for USB3**) field.
    pub fn u1_timeout(&self) -> (r: u8)
        ensures
            r == bits::field32(self.0, 0, 8),
    {
        bits::get_field32(self.0, 0, 8) as u8
    }

    /// Sets the U1 Timeout (**only valid for USB3**) field.
    pub fn set_u1_timeout(&mut self, v: u8)
        ensures
            final(self).0 == bits::with_field32(old(self).0, v as u32, 0, 8),
    {
        self.0 = bits::set_field32(self.0, v as u32, 0, 8);
    }

    /// Returns the U2 Timeout (**only valid for USB3**) field.
    pub fn u2_timeout(&self) -> (r: u8)
        ensures
            r == bits::field32(self.0, 8, 8),
    {
        bits::get_field32(self.0, 8, 8) as u8
    }

    /// Sets the U2 Timeout (**only valid for USB3**) field.
    pub fn set_u2_timeout(&mut self, v: u8)
        ensures
            final(self).0 == bits::with_field32(old(self).0, v as u32, 8, 8),
    {
        self.0 = bits::set_field32(self.0, v as u32, 8, 8);
    }

    /// Returns the Force Link PM Accept (**only valid for USB3**) bit.
    pub fn force_link_pm_accept(&self) -> (r: bool)
        ensures
            r == bits::bit32(self.0, 16),
    {
        bits::get_bit32(self.0, 16)
    }

    /// Sets the Force Link PM Accept (**only valid for USB3**) bit.
    pub fn set_force_link_pm_accept(&mut self)
        ensures
            final(self).0 == bits::with_bit32(old(self).0, 16, true),
    {
        self.0 = bits::set_bit32(self.0, 16, true);
    }

    /// Clears the Force Link PM Accept (**only valid for USB3**) bit.
    pub fn clear_force_link_pm_accept(&mut self)
        ensures
            final(self).0 == bits::with_bit32(old(self).0, 16, false),
    {
        self.0 = bits::set_bit32(self.0, 16, false);
    }

    /// Returns the value of the L1 Status field, or `None` for a reserved
    /// pattern. **Only valid for USB2.**
    pub fn l1_status(self) -> (r: Option<L1Status>)
        ensures
            r == L1Status::spec_from(bits::field32(self.0, 0, 3)),
    {
        L1Status::from_value(bits::get_field32(self.0, 0, 3))
    }

    /// Returns the value of the Port Test Control field, or `None` for a
    /// reserved pattern. **Only valid for USB2.**
    pub fn port_test_control(self) -> (r: Option<TestMode>)
        ensures
            r == TestMode::spec_from(bits::field32(self.0, 28, 4)),
    {
        TestMode::from_value(bits::get_field32(self.0, 28, 4))
    }

    /// Sets the value of the Port Test Control field. **Only valid for
    /// USB2.**
    pub fn set_port_test_control(&mut self, m: TestMode)
        ensures
            final(self).0 == bits::with_field32(old(self).0, m.spec_value(), 28, 4),
    {
        let v: u32 = m.value();
        self.0 = bits::set_field32(self.0, v, 28, 4);
    }

    /// Returns the Remote Wake Enable (**only valid for USB2**) bit.
    pub fn remote_wake_enable(&self) -> (r: bool)
        ensures
            r == bits::bit32(self.0, 3),
    {
        bits::get_bit32(self.0, 3)
    }

    /// Sets the Remote Wake Enable (**only valid for USB2**) bit.
    pub fn set_remote_wake_enable(&mut self)
        ensures
            final(self).0 == bits::with_bit32(old(self).0, 3, true),
    {
        self.0 = bits::set_bit32(self.0, 3, true);
    }

    /// Clears the Remote Wake Enable (**only valid for USB2**) bit.
    pub fn clear_remote_wake_enable(&mut self)
        ensures
            final(self).0 == bits::with_bit32(old(self).0, 3, false),
    {
        self.0 = bits::set_bit32(self.0, 3, false);
    }

    /// Returns the Best Effort Service Latency (**only valid for USB2**) field.
    pub fn best_effort_service_latency(&self) -> (r: u8)
        ensures
            r == bits::field32(self.0, 4, 4),
    {
        bits::get_field32(self.0, 4, 4) as u8
    }

    /// Sets the Best Effort Service Latency (**only valid for USB2**) field.
    pub fn set_best_effort_service_latency(&mut self, v: u8)
        requires
            v <= 0xf,
        ensures
            final(self).0 == bits::with_field32(old(self).0, v as u32, 4, 4),
    {
        self.0 = bits::set_field32(self.0, v as u32, 4, 4);
    }

    /// Returns the L1 Device Slot (**only valid for USB2**) field.
    pub fn l1_device_slot(&self) -> (r: u8)
        ensures
            r == bits::field32(self.0, 8, 8),
    {
        bits::get_field32(self.0, 8, 8) as u8
    }

    /// Sets the L1 Device Slot (**only valid for USB2**) field.
    pub fn set_l1_device_slot(&mut self, v: u8)
        ensures
            final(self).0 == bits::with_field32(old(self).0, v as u32, 8, 8),
    {
        self.0 = bits::set_field32(self.0, v as u32, 8, 8);
    }

    /// Returns the Hardware LPM Enable (**only valid for USB2**) bit.
    pub fn hardware_lpm_enable(&self) -> (r: bool)
        ensures
            r == bits::bit32(self.0, 16),
    {
        bits::get_bit32(self.0, 16)
    }

    /// Sets the Hardware LPM Enable (**only valid for USB2**) bit.
    pub fn set_hardware_lpm_enable(&mut self)
        ensures
            final(self).0 == bits::with_bit32(old(self).0, 16, true),
    {
        self.0 = bits::set_bit32(self.0, 16, true);
    }

    /// Clears the Hardware LPM Enable (**only valid for USB2**) bit.
    pub fn clear_hardware_lpm_enable(&mut self)
        ensures
            final(self).0 == bits::with_bit32(old(self).0, 16, false),
    {
        self.0 = bits::set_bit32(self.0, 16, false);
    }
}

/// Port Link Info Register (**only valid for USB3; reserved for USB2**)
#[derive(Copy, Clone, Debug)]
pub struct PortLinkInfoRegister(pub u32);

impl PortLinkInfoRegister {
    /// Returns the Link Error Count field.
    pub fn link_error_count(&self) -> (r: u16)
        ensures
            r == bits::field32(self.0, 0, 16),
    {
        bits::get_field32(self.0, 0, 16) as u16
    }

    /// Sets the Link Error Count field.
    pub fn set_link_error_count(&mut self, v: u16)
        ensures
            final(self).0 == bits::with_field32(old(self).0, v as u32, 0, 16),
    {
        self.0 = bits::set_field32(self.0, v as u32, 0, 16);
    }

    /// Returns the Rx Lane Count field.
    pub fn rx_lane_count(&self) -> (r: u8)
        ensures
            r == bits::field32(self.0, 16, 4),
    {
        bits::get_field32(self.0, 16, 4) as u8
    }

    /// Returns the Tx Lane Count field.
    pub fn tx_lane_count(&self) -> (r: u8)
        ensures
            r == bits::field32(self.0, 20, 4),
    {
        bits::get_field32(self.0, 20, 4) as u8
    }
}

/// Port Hardware LPM Control Register (**only valid for USB2; reserved for USB3**)
#[derive(Copy, Clone, Debug)]
pub struct PortHardwareLpmControlRegister(pub u32);

impl PortHardwareLpmControlRegister {
    /// Returns the Host Initiated Resume Duration Mode field.
    pub fn host_initiated_resume_duration_mode(&self) -> (r: u8)
        ensures
            r == bits::field32(self.0, 0, 2),
    {
        bits::get_field32(self.0, 0, 2) as u8
    }

    /// Sets the Host Initiated Resume Duration Mode field.
    pub fn set_host_initiated_resume_duration_mode(&mut self, v: u8)
        requires
            v <= 0x3,
        ensures
            final(self).0 == bits::with_field32(old(self).0, v as u32, 0, 2),
    {
        self.0 = bits::set_field32(self.0, v as u32, 0, 2);
    }

    /// Returns the L1 Timeout field.
    pub fn l1_timeout(&self) -> (r: u8)
        ensures
            r == bits::field32(self.0, 2, 8),
    {
        bits::get_field32(self.0, 2, 8) as u8
    }

    /// Sets the L1 Timeout field.
    pub fn set_l1_timeout(&mut self, v: u8)
        ensures
            final(self).0 == bits::with_field32(old(self).0, v as u32, 2, 8),
    {
        self.0 = bits::set_field32(self.0, v as u32, 2, 8);
    }

    /// Returns the Best Effort Service Latency Deep field.
    pub fn best_effort_service_latency_deep(&self) -> (r: u8)
        ensures
            r == bits::field32(self.0, 10, 4),
    {
        bits::get_field32(self.0, 10, 4) as u8
    }

    /// Sets the Best Effort Service Latency Deep field.
    pub fn set_best_effort_service_latency_deep(&mut self, v: u8)
        requires
            v <= 0xf,
        ensures
            final(self).0 == bits::with_field32(old(self).0, v as u32, 10, 4),
    {
        self.0 = bits::set_field32(self.0, v as u32, 10, 4);
    }
}

/// A value of the Port Indicator Control field.
#[derive(Copy, Clone, Debug, PartialEq, Eq, PartialOrd, Ord, Hash, Structural)]
pub enum PortIndicator {
    /// Port Indicators are off.
    Off,
    /// Amber.
    Amber,
    /// Green.
    Green,
    /// Undefined.
    Undefined,
}

impl PortIndicator {
    /// The field encoding of this value.
    pub open spec fn spec_value(self) -> u32 {
        match self {
            PortIndicator::Off => 0,
            PortIndicator::Amber => 1,
            PortIndicator::Green => 2,
            PortIndicator::Undefined => 3,
        }
    }

    /// Returns the field encoding of this value.
    pub fn value(self) -> (r: u32)
        ensures
            r == self.spec_value(),
    {
        match self {
            PortIndicator::Off => 0,
            PortIndicator::Amber => 1,
            PortIndicator::Green => 2,
            PortIndicator::Undefined => 3,
        }
    }

    /// The value a field encoding stands for, or `None` for a reserved
    /// pattern.
    pub open spec fn spec_from(v: u32) -> Option<PortIndicator> {
        if v == 0 {
            Some(PortIndicator::Off)
        } else if v == 1 {
            Some(PortIndicator::Amber)
        } else if v == 2 {
            Some(PortIndicator::Green)
        } else if v == 3 {
            Some(PortIndicator::Undefined)
        } else {
            None
        }
    }

    /// Decodes a field encoding; `None` for a reserved pattern.
    pub fn from_value(v: u32) -> (r: Option<PortIndicator>)
        ensures
            r == PortIndicator::spec_from(v),
    {
        match v {
            0u32 => Some(PortIndicator::Off),
            1u32 => Some(PortIndicator::Amber),
            2u32 => Some(PortIndicator::Green),
            3u32 => Some(PortIndicator::Undefined),
            _ => None,
        }
    }
}

/// Encoding a value and decoding it yields the value back.
pub proof fn lemma_port_indicator_roundtrip(s: PortIndicator)
    ensures
        PortIndicator::spec_from(s.spec_value()) == Some(s),
{
}

/// L1 Status.
#[derive(Copy, Clone, Debug, PartialEq, Eq, PartialOrd, Ord, Hash, Structural)]
pub enum L1Status {
    /// The L1 Status field shall be ignored by software.
    Invalid,
    /// Port successfully transitioned to L1 (ACK).
    Success,
    /// Device is unable to enter L1 at this time (NYET).
    NotYet,
    /// Device does not support L1 transitions (STALL).
    NotSupported,
    /// Device failed to respond to the LPM Transaction or an error occurred.
    TimeOutOrError,
}

impl L1Status {
    /// The field encoding of this value.
    pub open spec fn spec_value(self) -> u32 {
        match self {
            L1Status::Invalid => 0,
            L1Status::Success => 1,
            L1Status::NotYet => 2,
            L1Status::NotSupported => 3,
            L1Status::TimeOutOrError => 4,
        }
    }

    /// Returns the field encoding of this value.
    pub fn value(self) -> (r: u32)
        ensures
            r == self.spec_value(),
    {
        match self {
            L1Status::Invalid => 0,
            L1Status::Success => 1,
            L1Status::NotYet => 2,
            L1Status::NotSupported => 3,
            L1Status::TimeOutOrError => 4,
        }
    }

    /// The value a field encoding stands for, or `None` for a reserved
    /// pattern.
    pub open spec fn spec_from(v: u32) -> Option<L1Status> {
        if v == 0 {
            Some(L1Status::Invalid)
        } else if v == 1 {
            Some(L1Status::Success)
        } else if v == 2 {
            Some(L1Status::NotYet)
        } else if v == 3 {
            Some(L1Status::NotSupported)
        } else if v == 4 {
            Some(L1Status::TimeOutOrError)
        } else {
            None
        }
    }

    /// Decodes a field encoding; `None` for a reserved pattern.
    pub fn from_value(v: u32) -> (r: Option<L1Status>)
        ensures
            r == L1Status::spec_from(v),
    {
        match v {
            0u32 => Some(L1Status::Invalid),
            1u32 => Some(L1Status::Success),
            2u32 => Some(L1Status::NotYet),
            3u32 => Some(L1Status::NotSupported),
            4u32 => Some(L1Status::TimeOutOrError),
            _ => None,
        }
    }
}

/// Encoding a value and decoding it yields the value back.
pub proof fn lemma_l1_status_roundtrip(s: L1Status)
    ensures
        L1Status::spec_from(s.spec_value()) == Some(s),
{
}

/// Test Mode.
#[derive(Copy, Clone, Debug, PartialEq, Eq, PartialOrd, Ord, Hash, Structural)]
pub enum TestMode {
    /// Test mode not enabled.
    NotEnabled,
    /// Test J_STATE.
    JState,
    /// Test K_STATE.
    KState,
    /// Test SE0_NAK.
    Se0Nak,
    /// Test Packet.
    Pakcet,
    /// Test FORCE_ENABLE.
    ForceEnable,
    /// Port Test Control Error.
    PortTestControlError,
}

impl TestMode {
    /// The field encoding of this value.
    pub open spec fn spec_value(self) -> u32 {
        match self {
            TestMode::NotEnabled => 0,
            TestMode::JState => 1,
            TestMode::KState => 2,
            TestMode::Se0Nak => 3,
            TestMode::Pakcet => 4,
            TestMode::ForceEnable => 5,
            TestMode::PortTestControlError => 15,
        }
    }

    /// Returns the field encoding of this value.
    pub fn value(self) -> (r: u32)
        ensures
            r == self.spec_value(),
    {
        match self {
            TestMode::NotEnabled => 0,
            TestMode::JState => 1,
            TestMode::KState => 2,
            TestMode::Se0Nak => 3,
            TestMode::Pakcet => 4,
            TestMode::ForceEnable => 5,
            TestMode::PortTestControlError => 15,
        }
    }

    /// The value a field encoding stands for, or `None` for a reserved
    /// pattern.
    pub open spec fn spec_from(v: u32) -> Option<TestMode> {
        if v == 0 {
            Some(TestMode::NotEnabled)
        } else if v == 1 {
            Some(TestMode::JState)
        } else if v == 2 {
            Some(TestMode::KState)
        } else if v == 3 {
            Some(TestMode::Se0Nak)
        } else if v == 4 {
            Some(TestMode::Pakcet)
        } else if v == 5 {
            Some(TestMode::ForceEnable)
        } else if v == 15 {
            Some(TestMode::PortTestControlError)
        } else {
            None
        }
    }

    /// Decodes a field encoding; `None` for a reserved pattern.
    pub fn from_value(v: u32) -> (r: Option<TestMode>)
        ensures
            r == TestMode::spec_from(v),
    {
        match v {
            0u32 => Some(TestMode::NotEnabled),
            1u32 => Some(TestMode::JState),
            2u32 => Some(TestMode::KState),
            3u32 => Some(TestMode::Se0Nak),
            4u32 => Some(TestMode::Pakcet),
            5u32 => Some(TestMode::ForceEnable),
            15u32 => Some(TestMode::PortTestControlError),
            _ => None,
        }
    }
}

/// Encoding a value and decoding it yields the value back.
pub proof fn lemma_test_mode_roundtrip(s: TestMode)
    ensures
        TestMode::spec_from(s.spec_value()) == Some(s),
{
}

} // verus!
