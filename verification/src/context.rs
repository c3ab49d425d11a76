//! Device Context, Input Context and their member contexts.
//!
//! An Input Context is an Input Control Context followed by a Device
//! Context; a Device Context is a Slot Context followed by 31 Endpoint
//! Contexts. Device Context Index (DCI) 0 is the Slot Context and DCI
//! 1 through 31 are the Endpoint Contexts. Each context exists in a
//! 32-byte and a 64-byte layout; the pad type parameter records which
//! layout the controller was told to use.

use vstd::prelude::*;

use crate::bits;
use crate::error::Error;

verus! {

/// The first 32 bytes of the Input Control Context.
///
/// In 64-byte context mode the next 32 bytes are reserved as zero and
/// irrelevant to the software.
#[derive(Copy, Clone, PartialEq, Eq, PartialOrd, Ord, Hash, Debug, Default)]
pub struct InputControl(pub [u32; 8]);

impl InputControl {
    /// Creates a zeroed value.
    pub fn new() -> (r: Self)
        ensures
            forall|i: int| 0 <= i < 8 ==> r.0[i] == 0,
    {
        InputControl([0u32; 8])
    }

    /// All backing words are zero.
    pub open spec fn spec_zeroed(self) -> bool {
        forall|i: int| 0 <= i < 8 ==> self.0[i] == 0
    }

    /// Returns the whole Drop Context Flags bitmap.
    pub fn drop_context_flags(&self) -> (r: u32)
        ensures
            r == self.0[0],
    {
        self.0[0]
    }

    /// Returns the `i`th Drop Context flag. Indices 0 and 1 are reserved
    /// and are rejected, as is any index above 31.
    pub fn drop_context_flag(&self, i: usize) -> (r: Result<bool, Error>)
        ensures
            2 <= i <= 31 ==> r == Ok::<bool, Error>(bits::bit32(self.0[0], i as u32)),
            !(2 <= i <= 31) ==> r == Err::<bool, Error>(Error::DropFlagIndexReserved),
    {
        if i < 2 || i > 31 {
            Err(Error::DropFlagIndexReserved)
        } else {
            Ok(bits::get_bit32(self.0[0], i as u32))
        }
    }

    /// Sets the `i`th Drop Context flag. Indices 0 and 1 are reserved and
    /// are rejected, as is any index above 31.
    pub fn set_drop_context_flag(&mut self, i: usize) -> (r: Result<(), Error>)
        ensures
            2 <= i <= 31 ==> r == Ok::<(), Error>(())
                && final(self).0[0] == bits::with_bit32(old(self).0[0], i as u32, true),
            2 <= i <= 31 ==> forall|j: int| 1 <= j < 8 ==> final(self).0[j] == old(self).0[j],
            !(2 <= i <= 31) ==> r == Err::<(), Error>(Error::DropFlagIndexReserved)
                && final(self).0 == old(self).0,
    {
        if i < 2 || i > 31 {
            Err(Error::DropFlagIndexReserved)
        } else {
            self.0[0] = bits::set_bit32(self.0[0], i as u32, true);
            Ok(())
        }
    }

    /// Clears the `i`th Drop Context flag. Indices 0 and 1 are reserved and
    /// are rejected, as is any index above 31.
    pub fn clear_drop_context_flag(&mut self, i: usize) -> (r: Result<(), Error>)
        ensures
            2 <= i <= 31 ==> r == Ok::<(), Error>(())
                && final(self).0[0] == bits::with_bit32(old(self).0[0], i as u32, false),
            2 <= i <= 31 ==> forall|j: int| 1 <= j < 8 ==> final(self).0[j] == old(self).0[j],
            !(2 <= i <= 31) ==> r == Err::<(), Error>(Error::DropFlagIndexReserved)
                && final(self).0 == old(self).0,
    {
        if i < 2 || i > 31 {
            Err(Error::DropFlagIndexReserved)
        } else {
            self.0[0] = bits::set_bit32(self.0[0], i as u32, false);
            Ok(())
        }
    }

    /// Returns the whole Add Context Flags bitmap.
    pub fn add_context_flags(&self) -> (r: u32)
        ensures
            r == self.0[1],
    {
        self.0[1]
    }

    /// Returns the `i`th Add Context flag. An index above 31 is rejected.
    pub fn add_context_flag(&self, i: usize) -> (r: Result<bool, Error>)
        ensures
            i <= 31 ==> r == Ok::<bool, Error>(bits::bit32(self.0[1], i as u32)),
            i > 31 ==> r == Err::<bool, Error>(Error::AddFlagIndexOutOfRange),
    {
        if i > 31 {
            Err(Error::AddFlagIndexOutOfRange)
        } else {
            Ok(bits::get_bit32(self.0[1], i as u32))
        }
    }

    /// Sets the `i`th Add Context flag. An index above 31 is rejected.
    pub fn set_add_context_flag(&mut self, i: usize) -> (r: Result<(), Error>)
        ensures
            i <= 31 ==> r == Ok::<(), Error>(())
                && final(self).0[1] == bits::with_bit32(old(self).0[1], i as u32, true),
            i <= 31 ==> forall|j: int| 0 <= j < 8 && j != 1 ==> final(self).0[j] == old(self).0[j],
            i > 31 ==> r == Err::<(), Error>(Error::AddFlagIndexOutOfRange)
                && final(self).0 == old(self).0,
    {
        if i > 31 {
            Err(Error::AddFlagIndexOutOfRange)
        } else {
            self.0[1] = bits::set_bit32(self.0[1], i as u32, true);
            Ok(())
        }
    }

    /// Clears the `i`th Add Context flag. An index above 31 is rejected.
    pub fn clear_add_context_flag(&mut self, i: usize) -> (r: Result<(), Error>)
        ensures
            i <= 31 ==> r == Ok::<(), Error>(())
                && final(self).0[1] == bits::with_bit32(old(self).0[1], i as u32, false),
            i <= 31 ==> forall|j: int| 0 <= j < 8 && j != 1 ==> final(self).0[j] == old(self).0[j],
            i > 31 ==> r == Err::<(), Error>(Error::AddFlagIndexOutOfRange)
                && final(self).0 == old(self).0,
    {
        if i > 31 {
            Err(Error::AddFlagIndexOutOfRange)
        } else {
            self.0[1] = bits::set_bit32(self.0[1], i as u32, false);
            Ok(())
        }
    }

    /// Returns the Configuration Value field.
    pub fn configuration_value(&self) -> (r: u8)
        ensures
            r == bits::field32(self.0[7], 0, 8),
    {
        bits::get_field32(self.0[7], 0, 8) as u8
    }

    /// Sets the Configuration Value field.
    pub fn set_configuration_value(&mut self, v: u8)
        ensures
            final(self).0[7] == bits::with_field32(old(self).0[7], v as u32, 0, 8),
            forall|i: int| 0 <= i < 8 && i != 7 ==> final(self).0[i] == old(self).0[i],
    {
        self.0[7] = bits::set_field32(self.0[7], v as u32, 0, 8);
    }

    /// Returns the Interface Number field.
    pub fn interface_number(&self) -> (r: u8)
        ensures
            r == bits::field32(self.0[7], 8, 8),
    {
        bits::get_field32(self.0[7], 8, 8) as u8
    }

    /// Sets the Interface Number field.
    pub fn set_interface_number(&mut self, v: u8)
        ensures
            final(self).0[7] == bits::with_field32(old(self).0[7], v as u32, 8, 8),
            forall|i: int| 0 <= i < 8 && i != 7 ==> final(self).0[i] == old(self).0[i],
    {
        self.0[7] = bits::set_field32(self.0[7], v as u32, 8, 8);
    }

    /// Returns the Alternate Setting field.
    pub fn alternate_setting(&self) -> (r: u8)
        ensures
            r == bits::field32(self.0[7], 16, 8),
    {
        bits::get_field32(self.0[7], 16, 8) as u8
    }

    /// Sets the Alternate Setting field.
    pub fn set_alternate_setting(&mut self, v: u8)
        ensures
            final(self).0[7] == bits::with_field32(old(self).0[7], v as u32, 16, 8),
            forall|i: int| 0 <= i < 8 && i != 7 ==> final(self).0[i] == old(self).0[i],
    {
        self.0[7] = bits::set_field32(self.0[7], v as u32, 16, 8);
    }
}

/// The first 32 bytes of the Slot Context.
///
/// In 64-byte context mode the next 32 bytes are reserved as zero and
/// irrelevant to the software.
#[derive(Copy, Clone, PartialEq, Eq, PartialOrd, Ord, Hash, Debug, Default)]
pub struct Slot(pub [u32; 8]);

impl Slot {
    /// Creates a zeroed value.
    pub fn new() -> (r: Self)
        ensures
            forall|i: int| 0 <= i < 8 ==> r.0[i] == 0,
    {
        Slot([0u32; 8])
    }

    /// All backing words are zero.
    pub open spec fn spec_zeroed(self) -> bool {
        forall|i: int| 0 <= i < 8 ==> self.0[i] == 0
    }

    /// Returns the Route String field.
    pub fn route_string(&self) -> (r: u32)
        ensures
            r == bits::field32(self.0[0], 0, 20),
    {
        bits::get_field32(self.0[0], 0, 20)
    }

    /// Sets the Route String field.
    pub fn set_route_string(&mut self, v: u32)
        requires
            v <= 0xfffff,
        ensures
            final(self).0[0] == bits::with_field32(old(self).0[0], v, 0, 20),
            forall|i: int| 0 <= i < 8 && i != 0 ==> final(self).0[i] == old(self).0[i],
    {
        self.0[0] = bits::set_field32(self.0[0], v, 0, 20);
    }

    /// Returns the Speed field.
    pub fn speed(&self) -> (r: u8)
        ensures
            r == bits::field32(self.0[0], 20, 4),
    {
        bits::get_field32(self.0[0], 20, 4) as u8
    }

    /// Sets the Speed field.
    pub fn set_speed(&mut self, v: u8)
        requires
            v <= 0xf,
        ensures
            final(self).0[0] == bits::with_field32(old(self).0[0], v as u32, 20, 4),
            forall|i: int| 0 <= i < 8 && i != 0 ==> final(self).0[i] == old(self).0[i],
    {
        self.0[0] = bits::set_field32(self.0[0], v as u32, 20, 4);
    }

    /// Returns the Multi-TT bit.
    pub fn multi_tt(&self) -> (r: bool)
        ensures
            r == bits::bit32(self.0[0], 25),
    {
        bits::get_bit32(self.0[0], 25)
    }

    /// Sets the Multi-TT bit.
    pub fn set_multi_tt(&mut self)
        ensures
            final(self).0[0] == bits::with_bit32(old(self).0[0], 25, true),
            forall|i: int| 0 <= i < 8 && i != 0 ==> final(self).0[i] == old(self).0[i],
    {
        self.0[0] = bits::set_bit32(self.0[0], 25, true);
    }

    /// Clears the Multi-TT bit.
    pub fn clear_multi_tt(&mut self)
        ensures
            final(self).0[0] == bits::with_bit32(old(self).0[0], 25, false),
            forall|i: int| 0 <= i < 8 && i != 0 ==> final(self).0[i] == old(self).0[i],
    {
        self.0[0] = bits::set_bit32(self.0[0], 25, false);
    }

    /// Returns the Hub bit.
    pub fn hub(&self) -> (r: bool)
        ensures
            r == bits::bit32(self.0[0], 26),
    {
        bits::get_bit32(self.0[0], 26)
    }

    /// Sets the Hub bit.
    pub fn set_hub(&mut self)
        ensures
            final(self).0[0] == bits::with_bit32(old(self).0[0], 26, true),
            forall|i: int| 0 <= i < 8 && i != 0 ==> final(self).0[i] == old(self).0[i],
    {
        self.0[0] = bits::set_bit32(self.0[0], 26, true);
    }

    /// Clears the Hub bit.
    pub fn clear_hub(&mut self)
        ensures
            final(self).0[0] == bits::with_bit32(old(self).0[0], 26, false),
            forall|i: int| 0 <= i < 8 && i != 0 ==> final(self).0[i] == old(self).0[i],
    {
        self.0[0] = bits::set_bit32(self.0[0], 26, false);
    }

    /// Returns the Context Entries field.
    pub fn context_entries(&self) -> (r: u8)
        ensures
            r == bits::field32(self.0[0], 27, 5),
    {
        bits::get_field32(self.0[0], 27, 5) as u8
    }

    /// Sets the Context Entries field.
    pub fn set_context_entries(&mut self, v: u8)
        requires
            v <= 0x1f,
        ensures
            final(self).0[0] == bits::with_field32(old(self).0[0], v as u32, 27, 5),
            forall|i: int| 0 <= i < 8 && i != 0 ==> final(self).0[i] == old(self).0[i],
    {
        self.0[0] = bits::set_field32(self.0[0], v as u32, 27, 5);
    }

    /// Returns the Max Exit Latency field.
    pub fn max_exit_latency(&self) -> (r: u16)
        ensures
            r == bits::field32(self.0[1], 0, 16),
    {
        bits::get_field32(self.0[1], 0, 16) as u16
    }

    /// Sets the Max Exit Latency field.
    pub fn set_max_exit_latency(&mut self, v: u16)
        ensures
            final(self).0[1] == bits::with_field32(old(self).0[1], v as u32, 0, 16),
            forall|i: int| 0 <= i < 8 && i != 1 ==> final(self).0[i] == old(self).0[i],
    {
        self.0[1] = bits::set_field32(self.0[1], v as u32, 0, 16);
    }

    /// Returns the Root Hub Port Number field.
    pub fn root_hub_port_number(&self) -> (r: u8)
        ensures
            r == bits::field32(self.0[1], 16, 8),
    {
        bits::get_field32(self.0[1], 16, 8) as u8
    }

    /// Sets the Root Hub Port Number field.
    pub fn set_root_hub_port_number(&mut self, v: u8)
        ensures
            final(self).0[1] == bits::with_field32(old(self).0[1], v as u32, 16, 8),
            forall|i: int| 0 <= i < 8 && i != 1 ==> final(self).0[i] == old(self).0[i],
    {
        self.0[1] = bits::set_field32(self.0[1], v as u32, 16, 8);
    }

    /// Returns the Number of Ports field.
    pub fn number_of_ports(&self) -> (r: u8)
        ensures
            r == bits::field32(self.0[1], 24, 8),
    {
        bits::get_field32(self.0[1], 24, 8) as u8
    }

    /// Sets the Number of Ports field.
    pub fn set_number_of_ports(&mut self, v: u8)
        ensures
            final(self).0[1] == bits::with_field32(old(self).0[1], v as u32, 24, 8),
            forall|i: int| 0 <= i < 8 && i != 1 ==> final(self).0[i] == old(self).0[i],
    {
        self.0[1] = bits::set_field32(self.0[1], v as u32, 24, 8);
    }

    /// Returns the Parent Hub Slot ID field.
    pub fn parent_hub_slot_id(&self) -> (r: u8)
        ensures
            r == bits::field32(self.0[2], 0, 8),
    {
        bits::get_field32(self.0[2], 0, 8) as u8
    }

    /// Sets the Parent Hub Slot ID field.
    pub fn set_parent_hub_slot_id(&mut self, v: u8)
        ensures
            final(self).0[2] == bits::with_field32(old(self).0[2], v as u32, 0, 8),
            forall|i: int| 0 <= i < 8 && i != 2 ==> final(self).0[i] == old(self).0[i],
    {
        self.0[2] = bits::set_field32(self.0[2], v as u32, 0, 8);
    }

    /// Returns the Parent Port Number field.
    pub fn parent_port_number(&self) -> (r: u8)
        ensures
            r == bits::field32(self.0[2], 8, 8),
    {
        bits::get_field32(self.0[2], 8, 8) as u8
    }

    /// Sets the Parent Port Number field.
    pub fn set_parent_port_number(&mut self, v: u8)
        ensures
            final(self).0[2] == bits::with_field32(old(self).0[2], v as u32, 8, 8),
            forall|i: int| 0 <= i < 8 && i != 2 ==> final(self).0[i] == old(self).0[i],
    {
        self.0[2] = bits::set_field32(self.0[2], v as u32, 8, 8);
    }

    /// Returns the TT Think Time field.
    pub fn tt_think_time(&self) -> (r: u8)
        ensures
            r == bits::field32(self.0[2], 16, 2),
    {
        bits::get_field32(self.0[2], 16, 2) as u8
    }

    /// Sets the TT Think Time field.
    pub fn set_tt_think_time(&mut self, v: u8)
        requires
            v <= 0x3,
        ensures
            final(self).0[2] == bits::with_field32(old(self).0[2], v as u32, 16, 2),
            forall|i: int| 0 <= i < 8 && i != 2 ==> final(self).0[i] == old(self).0[i],
    {
        self.0[2] = bits::set_field32(self.0[2], v as u32, 16, 2);
    }

    /// Returns the Interrupter Target field.
    pub fn interrupter_target(&self) -> (r: u16)
        ensures
            r == bits::field32(self.0[2], 22, 10),
    {
        bits::get_field32(self.0[2], 22, 10) as u16
    }

    /// Sets the Interrupter Target field.
    pub fn set_interrupter_target(&mut self, v: u16)
        requires
            v <= 0x3ff,
        ensures
            final(self).0[2] == bits::with_field32(old(self).0[2], v as u32, 22, 10),
            forall|i: int| 0 <= i < 8 && i != 2 ==> final(self).0[i] == old(self).0[i],
    {
        self.0[2] = bits::set_field32(self.0[2], v as u32, 22, 10);
    }

    /// Returns the USB Device Address field.
    pub fn usb_device_address(&self) -> (r: u8)
        ensures
            r == bits::field32(self.0[3], 0, 8),
    {
        bits::get_field32(self.0[3], 0, 8) as u8
    }

    /// Sets the USB Device Address field.
    pub fn set_usb_device_address(&mut self, v: u8)
        ensures
            final(self).0[3] == bits::with_field32(old(self).0[3], v as u32, 0, 8),
            forall|i: int| 0 <= i < 8 && i != 3 ==> final(self).0[i] == old(self).0[i],
    {
        self.0[3] = bits::set_field32(self.0[3], v as u32, 0, 8);
    }

    /// Returns the Slot State, or `ReservedValue` for a reserved pattern.
    pub fn slot_state(&self) -> (r: Result<SlotState, Error>)
        ensures
            SlotState::spec_from(bits::field32(self.0[3], 27, 5)) matches Some(s)
                ==> r == Ok::<SlotState, Error>(s),
            SlotState::spec_from(bits::field32(self.0[3], 27, 5)) is None
                ==> r == Err::<SlotState, Error>(Error::ReservedValue),
    {
        match SlotState::from_value(bits::get_field32(self.0[3], 27, 5)) {
            Some(s) => Ok(s),
            None => Err(Error::ReservedValue),
        }
    }

    /// Sets the Slot State.
    pub fn set_slot_state(&mut self, state: SlotState)
        ensures
            final(self).0[3] == bits::with_field32(old(self).0[3], state.spec_value(), 27, 5),
            forall|i: int| 0 <= i < 8 && i != 3 ==> final(self).0[i] == old(self).0[i],
    {
        let v: u32 = state.value();
        self.0[3] = bits::set_field32(self.0[3], v, 27, 5);
    }
}

/// The first 32 bytes of the Endpoint Context.
///
/// In 64-byte context mode the next 32 bytes are reserved as zero and
/// irrelevant to the software.
#[derive(Copy, Clone, PartialEq, Eq, PartialOrd, Ord, Hash, Debug, Default)]
pub struct Endpoint(pub [u32; 8]);

impl Endpoint {
    /// Creates a zeroed value.
    pub fn new() -> (r: Self)
        ensures
            forall|i: int| 0 <= i < 8 ==> r.0[i] == 0,
    {
        Endpoint([0u32; 8])
    }

    /// All backing words are zero.
    pub open spec fn spec_zeroed(self) -> bool {
        forall|i: int| 0 <= i < 8 ==> self.0[i] == 0
    }

    /// Returns the Endpoint State, or `ReservedValue` for a reserved
    /// pattern.
    pub fn endpoint_state(&self) -> (r: Result<EndpointState, Error>)
        ensures
            EndpointState::spec_from(bits::field32(self.0[0], 0, 3)) matches Some(s)
                ==> r == Ok::<EndpointState, Error>(s),
            EndpointState::spec_from(bits::field32(self.0[0], 0, 3)) is None
                ==> r == Err::<EndpointState, Error>(Error::ReservedValue),
    {
        match EndpointState::from_value(bits::get_field32(self.0[0], 0, 3)) {
            Some(s) => Ok(s),
            None => Err(Error::ReservedValue),
        }
    }

    /// Sets the Endpoint State.
    pub fn set_endpoint_state(&mut self, s: EndpointState)
        ensures
            final(self).0[0] == bits::with_field32(old(self).0[0], s.spec_value(), 0, 3),
            forall|i: int| 0 <= i < 8 && i != 0 ==> final(self).0[i] == old(self).0[i],
    {
        let v: u32 = s.value();
        self.0[0] = bits::set_field32(self.0[0], v, 0, 3);
    }

    /// Returns the Mult field.
    pub fn mult(&self) -> (r: u8)
        ensures
            r == bits::field32(self.0[0], 8, 2),
    {
        bits::get_field32(self.0[0], 8, 2) as u8
    }

    /// Sets the Mult field.
    pub fn set_mult(&mut self, v: u8)
        requires
            v <= 0x3,
        ensures
            final(self).0[0] == bits::with_field32(old(self).0[0], v as u32, 8, 2),
            forall|i: int| 0 <= i < 8 && i != 0 ==> final(self).0[i] == old(self).0[i],
    {
        self.0[0] = bits::set_field32(self.0[0], v as u32, 8, 2);
    }

    /// Returns the Max Primary Streams field.
    pub fn max_primary_streams(&self) -> (r: u8)
        ensures
            r == bits::field32(self.0[0], 10, 5),
    {
        bits::get_field32(self.0[0], 10, 5) as u8
    }

    /// Sets the Max Primary Streams field.
    pub fn set_max_primary_streams(&mut self, v: u8)
        requires
            v <= 0x1f,
        ensures
            final(self).0[0] == bits::with_field32(old(self).0[0], v as u32, 10, 5),
            forall|i: int| 0 <= i < 8 && i != 0 ==> final(self).0[i] == old(self).0[i],
    {
        self.0[0] = bits::set_field32(self.0[0], v as u32, 10, 5);
    }

    /// Returns the Linear Stream Array bit.
    pub fn linear_stream_array(&self) -> (r: bool)
        ensures
            r == bits::bit32(self.0[0], 15),
    {
        bits::get_bit32(self.0[0], 15)
    }

    /// Sets the Linear Stream Array bit.
    pub fn set_linear_stream_array(&mut self)
        ensures
            final(self).0[0] == bits::with_bit32(old(self).0[0], 15, true),
            forall|i: int| 0 <= i < 8 && i != 0 ==> final(self).0[i] == old(self).0[i],
    {
        self.0[0] = bits::set_bit32(self.0[0], 15, true);
    }

    /// Clears the Linear Stream Array bit.
    pub fn clear_linear_stream_array(&mut self)
        ensures
            final(self).0[0] == bits::with_bit32(old(self).0[0], 15, false),
            forall|i: int| 0 <= i < 8 && i != 0 ==> final(self).0[i] == old(self).0[i],
    {
        self.0[0] = bits::set_bit32(self.0[0], 15, false);
    }

    /// Returns the Interval field.
    pub fn interval(&self) -> (r: u8)
        ensures
            r == bits::field32(self.0[0], 16, 8),
    {
        bits::get_field32(self.0[0], 16, 8) as u8
    }

    /// Sets the Interval field.
    pub fn set_interval(&mut self, v: u8)
        ensures
            final(self).0[0] == bits::with_field32(old(self).0[0], v as u32, 16, 8),
            forall|i: int| 0 <= i < 8 && i != 0 ==> final(self).0[i] == old(self).0[i],
    {
        self.0[0] = bits::set_field32(self.0[0], v as u32, 16, 8);
    }

    /// Returns the Max Endpoint Service Time Interval Payload High field.
    pub fn max_endpoint_service_time_interval_payload_high(&self) -> (r: u8)
        ensures
            r == bits::field32(self.0[0], 24, 8),
    {
        bits::get_field32(self.0[0], 24, 8) as u8
    }

    /// Sets the Max Endpoint Service Time Interval Payload High field.
    pub fn set_max_endpoint_service_time_interval_payload_high(&mut self, v: u8)
        ensures
            final(self).0[0] == bits::with_field32(old(self).0[0], v as u32, 24, 8),
            forall|i: int| 0 <= i < 8 && i != 0 ==> final(self).0[i] == old(self).0[i],
    {
        self.0[0] = bits::set_field32(self.0[0], v as u32, 24, 8);
    }

    /// Returns the Error Count field.
    pub fn error_count(&self) -> (r: u8)
        ensures
            r == bits::field32(self.0[1], 1, 2),
    {
        bits::get_field32(self.0[1], 1, 2) as u8
    }

    /// Sets the Error Count field.
    pub fn set_error_count(&mut self, v: u8)
        requires
            v <= 0x3,
        ensures
            final(self).0[1] == bits::with_field32(old(self).0[1], v as u32, 1, 2),
            forall|i: int| 0 <= i < 8 && i != 1 ==> final(self).0[i] == old(self).0[i],
    {
        self.0[1] = bits::set_field32(self.0[1], v as u32, 1, 2);
    }

    /// Returns the Endpoint Type. Every three-bit pattern is a defined
    /// type.
    pub fn endpoint_type(&self) -> (r: EndpointType)
        ensures
            Some(r) == EndpointType::spec_from(bits::field32(self.0[1], 3, 3)),
    {
        match bits::get_field32(self.0[1], 3, 3) {
            0u32 => EndpointType::NotValid,
            1u32 => EndpointType::IsochOut,
            2u32 => EndpointType::BulkOut,
            3u32 => EndpointType::InterruptOut,
            4u32 => EndpointType::Control,
            5u32 => EndpointType::IsochIn,
            6u32 => EndpointType::BulkIn,
            _ => EndpointType::InterruptIn,
        }
    }

    /// Sets the Endpoint Type.
    pub fn set_endpoint_type(&mut self, t: EndpointType)
        ensures
            final(self).0[1] == bits::with_field32(old(self).0[1], t.spec_value(), 3, 3),
            forall|i: int| 0 <= i < 8 && i != 1 ==> final(self).0[i] == old(self).0[i],
    {
        let v: u32 = t.value();
        self.0[1] = bits::set_field32(self.0[1], v, 3, 3);
    }

    /// Returns the Host Initiate Disable bit.
    pub fn host_initiate_disable(&self) -> (r: bool)
        ensures
            r == bits::bit32(self.0[1], 7),
    {
        bits::get_bit32(self.0[1], 7)
    }

    /// Sets the Host Initiate Disable bit.
    pub fn set_host_initiate_disable(&mut self)
        ensures
            final(self).0[1] == bits::with_bit32(old(self).0[1], 7, true),
            forall|i: int| 0 <= i < 8 && i != 1 ==> final(self).0[i] == old(self).0[i],
    {
        self.0[1] = bits::set_bit32(self.0[1], 7, true);
    }

    /// Clears the Host Initiate Disable bit.
    pub fn clear_host_initiate_disable(&mut self)
        ensures
            final(self).0[1] == bits::with_bit32(old(self).0[1], 7, false),
            forall|i: int| 0 <= i < 8 && i != 1 ==> final(self).0[i] == old(self).0[i],
    {
        self.0[1] = bits::set_bit32(self.0[1], 7, false);
    }

    /// Returns the Max Burst Size field.
    pub fn max_burst_size(&self) -> (r: u8)
        ensures
            r == bits::field32(self.0[1], 8, 8),
    {
        bits::get_field32(self.0[1], 8, 8) as u8
    }

    /// Sets the Max Burst Size field.
    pub fn set_max_burst_size(&mut self, v: u8)
        ensures
            final(self).0[1] == bits::with_field32(old(self).0[1], v as u32, 8, 8),
            forall|i: int| 0 <= i < 8 && i != 1 ==> final(self).0[i] == old(self).0[i],
    {
        self.0[1] = bits::set_field32(self.0[1], v as u32, 8, 8);
    }

    /// Returns the Max Packet Size field.
    pub fn max_packet_size(&self) -> (r: u16)
        ensures
            r == bits::field32(self.0[1], 16, 16),
    {
        bits::get_field32(self.0[1], 16, 16) as u16
    }

    /// Sets the Max Packet Size field.
    pub fn set_max_packet_size(&mut self, v: u16)
        ensures
            final(self).0[1] == bits::with_field32(old(self).0[1], v as u32, 16, 16),
            forall|i: int| 0 <= i < 8 && i != 1 ==> final(self).0[i] == old(self).0[i],
    {
        self.0[1] = bits::set_field32(self.0[1], v as u32, 16, 16);
    }

    /// Returns the Dequeue Cycle State bit.
    pub fn dequeue_cycle_state(&self) -> (r: bool)
        ensures
            r == bits::bit32(self.0[2], 0),
    {
        bits::get_bit32(self.0[2], 0)
    }

    /// Sets the Dequeue Cycle State bit.
    pub fn set_dequeue_cycle_state(&mut self)
        ensures
            final(self).0[2] == bits::with_bit32(old(self).0[2], 0, true),
            forall|i: int| 0 <= i < 8 && i != 2 ==> final(self).0[i] == old(self).0[i],
    {
        self.0[2] = bits::set_bit32(self.0[2], 0, true);
    }

    /// Clears the Dequeue Cycle State bit.
    pub fn clear_dequeue_cycle_state(&mut self)
        ensures
            final(self).0[2] == bits::with_bit32(old(self).0[2], 0, false),
            forall|i: int| 0 <= i < 8 && i != 2 ==> final(self).0[i] == old(self).0[i],
    {
        self.0[2] = bits::set_bit32(self.0[2], 0, false);
    }

    /// Returns the TR Dequeue Pointer, with the low 4 bits read as zero.
    pub fn tr_dequeue_pointer(&self) -> (r: u64)
        ensures
            r == (((self.0[3] as u64) << 32) | (self.0[2] as u64)) & !bits::mask64(4),
    {
        (((self.0[3] as u64) << 32) | (self.0[2] as u64)) & !bits::mask64_exec(4)
    }

    /// Sets the TR Dequeue Pointer. The value must be 16-byte aligned; a misaligned value is
    /// rejected and nothing is written.
    pub fn set_tr_dequeue_pointer(&mut self, v: u64) -> (r: Result<(), Error>)
        ensures
            v & bits::mask64(4) != 0 ==> r == Err::<(), Error>(Error::Misaligned)
                && final(self).0 == old(self).0,
            v & bits::mask64(4) == 0 ==> r == Ok::<(), Error>(())
                && final(self).0[2] == (((((old(self).0[3] as u64) << 32) | (old(self).0[2] as u64)) & bits::mask64(4)) | v) as u32
                && final(self).0[3] == ((((((old(self).0[3] as u64) << 32) | (old(self).0[2] as u64)) & bits::mask64(4)) | v) >> 32) as u32,
            v & bits::mask64(4) == 0 ==> forall|i: int|
                0 <= i < 8 && i != 2 && i != 3 ==> final(self).0[i] == old(self).0[i],
    {
        let m: u64 = bits::mask64_exec(4);
        if v & m != 0 {
            Err(Error::Misaligned)
        } else {
            let joined: u64 = ((((self.0[3] as u64) << 32) | (self.0[2] as u64)) & m) | v;
            self.0[2] = joined as u32;
            self.0[3] = (joined >> 32) as u32;
            Ok(())
        }
    }

    /// Returns the Average TRB Length field.
    pub fn average_trb_length(&self) -> (r: u16)
        ensures
            r == bits::field32(self.0[4], 0, 16),
    {
        bits::get_field32(self.0[4], 0, 16) as u16
    }

    /// Sets the Average TRB Length field.
    pub fn set_average_trb_length(&mut self, v: u16)
        ensures
            final(self).0[4] == bits::with_field32(old(self).0[4], v as u32, 0, 16),
            forall|i: int| 0 <= i < 8 && i != 4 ==> final(self).0[i] == old(self).0[i],
    {
        self.0[4] = bits::set_field32(self.0[4], v as u32, 0, 16);
    }

    /// Returns the Max Endpoint Service Time Interval Payload Low field.
    pub fn max_endpoint_service_time_interval_payload_low(&self) -> (r: u16)
        ensures
            r == bits::field32(self.0[4], 16, 16),
    {
        bits::get_field32(self.0[4], 16, 16) as u16
    }

    /// Sets the Max Endpoint Service Time Interval Payload Low field.
    pub fn set_max_endpoint_service_time_interval_payload_low(&mut self, v: u16)
        ensures
            final(self).0[4] == bits::with_field32(old(self).0[4], v as u32, 16, 16),
            forall|i: int| 0 <= i < 8 && i != 4 ==> final(self).0[i] == old(self).0[i],
    {
        self.0[4] = bits::set_field32(self.0[4], v as u32, 16, 16);
    }
}

/// Slot State.
#[derive(Copy, Clone, Debug, PartialEq, Eq, PartialOrd, Ord, Hash, Structural)]
pub enum SlotState {
    /// Disabled/Enabled.
    DisabledEnabled,
    /// Default.
    Default,
    /// Addressed.
    Addressed,
    /// Configured.
    Configured,
}

impl SlotState {
    /// The field encoding of this value.
    pub open spec fn spec_value(self) -> u32 {
        match self {
            SlotState::DisabledEnabled => 0,
            SlotState::Default => 1,
            SlotState::Addressed => 2,
            SlotState::Configured => 3,
        }
    }

    /// Returns the field encoding of this value.
    pub fn value(self) -> (r: u32)
        ensures
            r == self.spec_value(),
    {
        match self {
            SlotState::DisabledEnabled => 0,
            SlotState::Default => 1,
            SlotState::Addressed => 2,
            SlotState::Configured => 3,
        }
    }

    /// The value a field encoding stands for, or `None` for a reserved
    /// pattern.
    pub open spec fn spec_from(v: u32) -> Option<SlotState> {
        if v == 0 {
            Some(SlotState::DisabledEnabled)
        } else if v == 1 {
            Some(SlotState::Default)
        } else if v == 2 {
            Some(SlotState::Addressed)
        } else if v == 3 {
            Some(SlotState::Configured)
        } else {
            None
        }
    }

    /// Decodes a field encoding; `None` for a reserved pattern.
    pub fn from_value(v: u32) -> (r: Option<SlotState>)
        ensures
            r == SlotState::spec_from(v),
    {
        match v {
            0u32 => Some(SlotState::DisabledEnabled),
            1u32 => Some(SlotState::Default),
            2u32 => Some(SlotState::Addressed),
            3u32 => Some(SlotState::Configured),
            _ => None,
        }
    }
}

/// Encoding a value and decoding it yields the value back.
pub proof fn lemma_slot_state_roundtrip(s: SlotState)
    ensures
        SlotState::spec_from(s.spec_value()) == Some(s),
{
}

/// Endpoint State.
#[derive(Copy, Clone, Debug, PartialEq, Eq, PartialOrd, Ord, Hash, Structural)]
pub enum EndpointState {
    /// The endpoint is not operational.
    Disabled,
    /// The endpoint is operational, either waiting for a doorbell ring or processing TDs.
    Running,
    /// The endpoint is halted due to a Halt condition detected on the USB.
    Halted,
    /// The endpoint is not running due to a Stop Endpoint Command or recovering from a Halt condition.
    Stopped,
    /// The endpoint is not running due to a TRB Error.
    Error,
}

impl EndpointState {
    /// The field encoding of this value.
    pub open spec fn spec_value(self) -> u32 {
        match self {
            EndpointState::Disabled => 0,
            EndpointState::Running => 1,
            EndpointState::Halted => 2,
            EndpointState::Stopped => 3,
            EndpointState::Error => 4,
        }
    }

    /// Returns the field encoding of this value.
    pub fn value(self) -> (r: u32)
        ensures
            r == self.spec_value(),
    {
        match self {
            EndpointState::Disabled => 0,
            EndpointState::Running => 1,
            EndpointState::Halted => 2,
            EndpointState::Stopped => 3,
            EndpointState::Error => 4,
        }
    }

    /// The value a field encoding stands for, or `None` for a reserved
    /// pattern.
    pub open spec fn spec_from(v: u32) -> Option<EndpointState> {
        if v == 0 {
            Some(EndpointState::Disabled)
        } else if v == 1 {
            Some(EndpointState::Running)
        } else if v == 2 {
            Some(EndpointState::Halted)
        } else if v == 3 {
            Some(EndpointState::Stopped)
        } else if v == 4 {
            Some(EndpointState::Error)
        } else {
            None
        }
    }

    /// Decodes a field encoding; `None` for a reserved pattern.
    pub fn from_value(v: u32) -> (r: Option<EndpointState>)
        ensures
            r == EndpointState::spec_from(v),
    {
        match v {
            0u32 => Some(EndpointState::Disabled),
            1u32 => Some(EndpointState::Running),
            2u32 => Some(EndpointState::Halted),
            3u32 => Some(EndpointState::Stopped),
            4u32 => Some(EndpointState::Error),
            _ => None,
        }
    }
}

/// Encoding a value and decoding it yields the value back.
pub proof fn lemma_endpoint_state_roundtrip(s: EndpointState)
    ensures
        EndpointState::spec_from(s.spec_value()) == Some(s),
{
}

/// Endpoint Type.
#[derive(Copy, Clone, Debug, PartialEq, Eq, PartialOrd, Ord, Hash, Structural)]
pub enum EndpointType {
    /// Not Valid.
    NotValid,
    /// Isoch Out.
    IsochOut,
    /// Bulk Out.
    BulkOut,
    /// Interrupt Out.
    InterruptOut,
    /// Control Bidirectional.
    Control,
    /// Isoch In.
    IsochIn,
    /// Bulk In.
    BulkIn,
    /// Interrupt In.
    InterruptIn,
}

impl EndpointType {
    /// The field encoding of this value.
    pub open spec fn spec_value(self) -> u32 {
        match self {
            EndpointType::NotValid => 0,
            EndpointType::IsochOut => 1,
            EndpointType::BulkOut => 2,
            EndpointType::InterruptOut => 3,
            EndpointType::Control => 4,
            EndpointType::IsochIn => 5,
            EndpointType::BulkIn => 6,
            EndpointType::InterruptIn => 7,
        }
    }

    /// Returns the field encoding of this value.
    pub fn value(self) -> (r: u32)
        ensures
            r == self.spec_value(),
    {
        match self {
            EndpointType::NotValid => 0,
            EndpointType::IsochOut => 1,
            EndpointType::BulkOut => 2,
            EndpointType::InterruptOut => 3,
            EndpointType::Control => 4,
            EndpointType::IsochIn => 5,
            EndpointType::BulkIn => 6,
            EndpointType::InterruptIn => 7,
        }
    }

    /// The value a field encoding stands for, or `None` for a reserved
    /// pattern.
    pub open spec fn spec_from(v: u32) -> Option<EndpointType> {
        if v == 0 {
            Some(EndpointType::NotValid)
        } else if v == 1 {
            Some(EndpointType::IsochOut)
        } else if v == 2 {
            Some(EndpointType::BulkOut)
        } else if v == 3 {
            Some(EndpointType::InterruptOut)
        } else if v == 4 {
            Some(EndpointType::Control)
        } else if v == 5 {
            Some(EndpointType::IsochIn)
        } else if v == 6 {
            Some(EndpointType::BulkIn)
        } else if v == 7 {
            Some(EndpointType::InterruptIn)
        } else {
            None
        }
    }

    /// Decodes a field encoding; `None` for a reserved pattern.
    pub fn from_value(v: u32) -> (r: Option<EndpointType>)
        ensures
            r == EndpointType::spec_from(v),
    {
        match v {
            0u32 => Some(EndpointType::NotValid),
            1u32 => Some(EndpointType::IsochOut),
            2u32 => Some(EndpointType::BulkOut),
            3u32 => Some(EndpointType::InterruptOut),
            4u32 => Some(EndpointType::Control),
            5u32 => Some(EndpointType::IsochIn),
            6u32 => Some(EndpointType::BulkIn),
            7u32 => Some(EndpointType::InterruptIn),
            _ => None,
        }
    }
}

/// Encoding a value and decoding it yields the value back.
pub proof fn lemma_endpoint_type_roundtrip(s: EndpointType)
    ensures
        EndpointType::spec_from(s.spec_value()) == Some(s),
{
}

/// The number of Endpoint Contexts in a Device Context.
pub const NUM_OF_ENDPOINT_CONTEXTS: usize = 31;

/// A context pad type: `()` for the 32-byte layout, `[u32; 8]` for the
/// 64-byte layout, where each 32-byte context is followed by 32 reserved
/// bytes that software keeps zero.
pub trait ContextPad: Sized {
    /// The all-zero pad block of this layout.
    fn zeroed() -> Self;
}

impl ContextPad for () {
    fn zeroed() -> Self {
    }
}

impl ContextPad for [u32; 8] {
    fn zeroed() -> Self {
        [0u32; 8]
    }
}

/// Device Context: one Slot Context followed by 31 Endpoint Contexts.
pub(crate) struct Device<P: ContextPad> {
    pub(crate) slot: Slot,
    pub(crate) endpoints: Vec<Endpoint>,
    pub(crate) pad: P,
}

impl<P: ContextPad> Device<P> {
    pub(crate) fn new() -> (r: Self)
        ensures
            r.endpoints.len() == NUM_OF_ENDPOINT_CONTEXTS,
            r.slot.spec_zeroed(),
            forall|i: int| 0 <= i < NUM_OF_ENDPOINT_CONTEXTS ==> r.endpoints@[i].spec_zeroed(),
    {
        let mut endpoints: Vec<Endpoint> = Vec::new();
        let mut k: usize = 0;
        while k < NUM_OF_ENDPOINT_CONTEXTS
            invariant
                endpoints.len() == k,
                k <= NUM_OF_ENDPOINT_CONTEXTS,
                forall|i: int| 0 <= i < k ==> endpoints@[i].spec_zeroed(),
            decreases NUM_OF_ENDPOINT_CONTEXTS - k,
        {
            endpoints.push(Endpoint::new());
            k += 1;
        }
        Device { slot: Slot::new(), endpoints, pad: P::zeroed() }
    }
}

/// A handler of an Input Context.
pub trait InputHandler: Sized {
    /// The Input Control Context of this Input Context.
    spec fn spec_control(&self) -> InputControl;

    /// The Slot Context of this Input Context.
    spec fn spec_slot(&self) -> Slot;

    /// The Endpoint Contexts of this Input Context, indexed by DCI minus
    /// one.
    spec fn spec_endpoints(&self) -> Seq<Endpoint>;

    /// Structural validity: exactly 31 Endpoint Contexts.
    spec fn inv(&self) -> bool;

    /// Returns a shared reference to the Input Control Context.
    fn control(&self) -> (r: &InputControl)
        requires
            self.inv(),
        ensures
            *r == self.spec_control(),
    ;

    /// Returns a mutable reference to the Input Control Context.
    fn control_mut(&mut self) -> (r: &mut InputControl)
        requires
            old(self).inv(),
        ensures
            *r == old(self).spec_control(),
            final(self).inv(),
            final(self).spec_control() == *final(r),
            final(self).spec_slot() == old(self).spec_slot(),
            final(self).spec_endpoints() == old(self).spec_endpoints(),
    ;

    /// Returns a shared reference to the Slot Context (DCI 0).
    fn slot(&self) -> (r: &Slot)
        requires
            self.inv(),
        ensures
            *r == self.spec_slot(),
    ;

    /// Returns a mutable reference to the Slot Context (DCI 0).
    fn slot_mut(&mut self) -> (r: &mut Slot)
        requires
            old(self).inv(),
        ensures
            *r == old(self).spec_slot(),
            final(self).inv(),
            final(self).spec_slot() == *final(r),
            final(self).spec_control() == old(self).spec_control(),
            final(self).spec_endpoints() == old(self).spec_endpoints(),
    ;

    /// Returns a shared reference to the Endpoint Context at `dci`.
    /// A DCI of 0 (the Slot Context) or above 31 is rejected.
    fn endpoint(&self, dci: usize) -> (r: Result<&Endpoint, Error>)
        requires
            self.inv(),
        ensures
            1 <= dci <= 31 ==> (r matches Ok(e) && *e == self.spec_endpoints()[dci - 1]),
            !(1 <= dci <= 31) ==> r is Err && r->Err_0 == Error::DciOutOfRange,
    ;

    /// Returns a mutable reference to the Endpoint Context at `dci`:
    /// exactly the endpoint at position `dci - 1` of the device endpoint
    /// array. A DCI of 0 (the Slot Context) or above 31 is rejected.
    fn endpoint_mut(&mut self, dci: usize) -> (r: Result<&mut Endpoint, Error>)
        requires
            old(self).inv(),
        ensures
            1 <= dci <= 31 ==> (r matches Ok(e) && *e == old(self).spec_endpoints()[dci - 1]
                && final(self).spec_endpoints() == old(self).spec_endpoints().update(dci - 1, *final(r->Ok_0)) && final(self).spec_control() == old(self).spec_control() && final(self).spec_slot() == old(self).spec_slot() && final(self).inv()),
            !(1 <= dci <= 31) ==> r is Err && r->Err_0 == Error::DciOutOfRange && *final(self)
                == *old(self),
    ;
}

/// A handler of an Output (Device) Context.
pub trait OutputHandler: Sized {
    /// The Slot Context of this Device Context.
    spec fn spec_slot(&self) -> Slot;

    /// The Endpoint Contexts of this Device Context, indexed by DCI minus
    /// one.
    spec fn spec_endpoints(&self) -> Seq<Endpoint>;

    /// Structural validity: exactly 31 Endpoint Contexts.
    spec fn inv(&self) -> bool;

    /// Returns a shared reference to the Slot Context (DCI 0).
    fn slot(&self) -> (r: &Slot)
        requires
            self.inv(),
        ensures
            *r == self.spec_slot(),
    ;

    /// Returns a mutable reference to the Slot Context (DCI 0).
    fn slot_mut(&mut self) -> (r: &mut Slot)
        requires
            old(self).inv(),
        ensures
            *r == old(self).spec_slot(),
            final(self).inv(),
            final(self).spec_slot() == *final(r),
            final(self).spec_endpoints() == old(self).spec_endpoints(),
    ;

    /// Returns a shared reference to the Endpoint Context at `dci`.
    /// A DCI of 0 (the Slot Context) or above 31 is rejected.
    fn endpoint(&self, dci: usize) -> (r: Result<&Endpoint, Error>)
        requires
            self.inv(),
        ensures
            1 <= dci <= 31 ==> (r matches Ok(e) && *e == self.spec_endpoints()[dci - 1]),
            !(1 <= dci <= 31) ==> r is Err && r->Err_0 == Error::DciOutOfRange,
    ;

    /// Returns a mutable reference to the Endpoint Context at `dci`:
    /// exactly the endpoint at position `dci - 1` of the device endpoint
    /// array. A DCI of 0 (the Slot Context) or above 31 is rejected.
    fn endpoint_mut(&mut self, dci: usize) -> (r: Result<&mut Endpoint, Error>)
        requires
            old(self).inv(),
        ensures
            1 <= dci <= 31 ==> (r matches Ok(e) && *e == old(self).spec_endpoints()[dci - 1]
                && final(self).spec_endpoints() == old(self).spec_endpoints().update(dci - 1, *final(r->Ok_0)) && final(self).spec_slot() == old(self).spec_slot() && final(self).inv()),
            !(1 <= dci <= 31) ==> r is Err && r->Err_0 == Error::DciOutOfRange && *final(self)
                == *old(self),
    ;
}

/// Input Context: an Input Control Context followed by a Device Context.
pub struct Input<P: ContextPad> {
    control: InputControl,
    device: Device<P>,
}

/// 32-byte Input Context.
pub type Input32Byte = Input<()>;

/// 64-byte Input Context.
pub type Input64Byte = Input<[u32; 8]>;

impl<P: ContextPad> Input<P> {
    /// Creates a zeroed Input Context.
    pub fn new() -> (r: Self)
        ensures
            r.inv(),
            r.spec_control().spec_zeroed(),
            r.spec_slot().spec_zeroed(),
            forall|i: int|
                0 <= i < NUM_OF_ENDPOINT_CONTEXTS ==> r.spec_endpoints()[i].spec_zeroed(),
    {
        Input { control: InputControl::new(), device: Device::new() }
    }
}

impl<P: ContextPad> Default for Input<P> {
    /// Creates a zeroed Input Context.
    fn default() -> (r: Self)
        ensures
            r.inv(),
            r.spec_control().spec_zeroed(),
            r.spec_slot().spec_zeroed(),
            forall|i: int|
                0 <= i < NUM_OF_ENDPOINT_CONTEXTS ==> r.spec_endpoints()[i].spec_zeroed(),
    {
        Input::new()
    }
}

impl<P: ContextPad> InputHandler for Input<P> {
    closed spec fn spec_control(&self) -> InputControl {
        self.control
    }

    closed spec fn spec_slot(&self) -> Slot {
        self.device.slot
    }

    closed spec fn spec_endpoints(&self) -> Seq<Endpoint> {
        self.device.endpoints@
    }

    closed spec fn inv(&self) -> bool {
        self.device.endpoints.len() == NUM_OF_ENDPOINT_CONTEXTS
    }

    fn control(&self) -> (r: &InputControl) {
        &self.control
    }

    fn control_mut(&mut self) -> (r: &mut InputControl) {
        &mut self.control
    }

    fn slot(&self) -> (r: &Slot) {
        &self.device.slot
    }

    fn slot_mut(&mut self) -> (r: &mut Slot) {
        &mut self.device.slot
    }

    fn endpoint(&self, dci: usize) -> (r: Result<&Endpoint, Error>) {
        if 1 <= dci && dci <= NUM_OF_ENDPOINT_CONTEXTS {
            Ok(&self.device.endpoints[dci - 1])
        } else {
            Err(Error::DciOutOfRange)
        }
    }

    fn endpoint_mut(&mut self, dci: usize) -> (r: Result<&mut Endpoint, Error>) {
        if 1 <= dci && dci <= NUM_OF_ENDPOINT_CONTEXTS {
            Ok(&mut self.device.endpoints[dci - 1])
        } else {
            Err(Error::DciOutOfRange)
        }
    }
}

/// Output (Device) Context: a Slot Context followed by 31 Endpoint
/// Contexts.
pub struct Output<P: ContextPad> {
    device: Device<P>,
}

/// 32-byte Output (Device) Context.
pub type Output32Byte = Output<()>;

/// 64-byte Output (Device) Context.
pub type Output64Byte = Output<[u32; 8]>;

impl<P: ContextPad> Output<P> {
    /// Creates a zeroed Output (Device) Context.
    pub fn new() -> (r: Self)
        ensures
            r.inv(),
            r.spec_slot().spec_zeroed(),
            forall|i: int|
                0 <= i < NUM_OF_ENDPOINT_CONTEXTS ==> r.spec_endpoints()[i].spec_zeroed(),
    {
        Output { device: Device::new() }
    }
}

impl<P: ContextPad> Default for Output<P> {
    /// Creates a zeroed Output (Device) Context.
    fn default() -> (r: Self)
        ensures
            r.inv(),
            r.spec_slot().spec_zeroed(),
            forall|i: int|
                0 <= i < NUM_OF_ENDPOINT_CONTEXTS ==> r.spec_endpoints()[i].spec_zeroed(),
    {
        Output::new()
    }
}

impl<P: ContextPad> OutputHandler for Output<P> {
    closed spec fn spec_slot(&self) -> Slot {
        self.device.slot
    }

    closed spec fn spec_endpoints(&self) -> Seq<Endpoint> {
        self.device.endpoints@
    }

    closed spec fn inv(&self) -> bool {
        self.device.endpoints.len() == NUM_OF_ENDPOINT_CONTEXTS
    }

    fn slot(&self) -> (r: &Slot) {
        &self.device.slot
    }

    fn slot_mut(&mut self) -> (r: &mut Slot) {
        &mut self.device.slot
    }

    fn endpoint(&self, dci: usize) -> (r: Result<&Endpoint, Error>) {
        if 1 <= dci && dci <= NUM_OF_ENDPOINT_CONTEXTS {
            Ok(&self.device.endpoints[dci - 1])
        } else {
            Err(Error::DciOutOfRange)
        }
    }

    fn endpoint_mut(&mut self, dci: usize) -> (r: Result<&mut Endpoint, Error>) {
        if 1 <= dci && dci <= NUM_OF_ENDPOINT_CONTEXTS {
            Ok(&mut self.device.endpoints[dci - 1])
        } else {
            Err(Error::DciOutOfRange)
        }
    }
}

} // verus!
