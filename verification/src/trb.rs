//! TRB (Transfer Request Block) blocks and their types.
//!
//! A TRB is a 16-byte, four-dword ring entry. The cycle bit sits at dword
//! 3 bit 0, the chain bit at dword 3 bit 4, and the TRB Type at dword 3
//! bits 10 through 15.

use vstd::prelude::*;

use crate::bits;

verus! {

/// TRB Type, as encoded in bits 10 through 15 of the fourth dword of a TRB.
#[derive(Copy, Clone, Debug, PartialEq, Eq, PartialOrd, Ord, Hash, Structural)]
pub enum Type {
    /// Normal.
    Normal,
    /// Setup Stage.
    SetupStage,
    /// Data Stage.
    DataStage,
    /// Status Stage.
    StatusStage,
    /// Isoch.
    Isoch,
    /// Link.
    Link,
    /// Event Data.
    EventData,
    /// No Op (transfer ring).
    NoOp,
    /// Enable Slot Command.
    EnableSlot,
    /// Disable Slot Command.
    DisableSlot,
    /// Address Device Command.
    AddressDevice,
    /// Configure Endpoint Command.
    ConfigureEndpoint,
    /// Evaluate Context Command.
    EvaluateContext,
    /// Reset Endpoint Command.
    ResetEndpoint,
    /// Stop Endpoint Command.
    StopEndpoint,
    /// Set TR Dequeue Pointer Command.
    SetTrDequeuePointer,
    /// Reset Device Command.
    ResetDevice,
    /// Force Event Command.
    ForceEvent,
    /// Negotiate Bandwidth Command.
    NegotiateBandwidth,
    /// Set Latency Tolerance Value Command.
    SetLatencyToleranceValue,
    /// Get Port Bandwidth Command.
    GetPortBandwidth,
    /// Force Header Command.
    ForceHeader,
    /// No Op Command.
    NoOpCommand,
    /// Get Extended Property Command.
    GetExtendedProperty,
    /// Set Extended Property Command.
    SetExtendedProperty,
    /// Transfer Event.
    TransferEvent,
    /// Command Completion Event.
    CommandCompletion,
    /// Port Status Change Event.
    PortStatusChange,
    /// Bandwidth Request Event.
    BandwidthRequest,
    /// Doorbell Event.
    Doorbell,
    /// Host Controller Event.
    HostController,
    /// Device Notification Event.
    DeviceNotification,
    /// MFINDEX Wrap Event.
    MfindexWrap,
}

impl Type {
    /// The field encoding of this value.
    pub open spec fn spec_value(self) -> u32 {
        match self {
            Type::Normal => 1,
            Type::SetupStage => 2,
            Type::DataStage => 3,
            Type::StatusStage => 4,
            Type::Isoch => 5,
            Type::Link => 6,
            Type::EventData => 7,
            Type::NoOp => 8,
            Type::EnableSlot => 9,
            Type::DisableSlot => 10,
            Type::AddressDevice => 11,
            Type::ConfigureEndpoint => 12,
            Type::EvaluateContext => 13,
            Type::ResetEndpoint => 14,
            Type::StopEndpoint => 15,
            Type::SetTrDequeuePointer => 16,
            Type::ResetDevice => 17,
            Type::ForceEvent => 18,
            Type::NegotiateBandwidth => 19,
            Type::SetLatencyToleranceValue => 20,
            Type::GetPortBandwidth => 21,
            Type::ForceHeader => 22,
            Type::NoOpCommand => 23,
            Type::GetExtendedProperty => 24,
            Type::SetExtendedProperty => 25,
            Type::TransferEvent => 32,
            Type::CommandCompletion => 33,
            Type::PortStatusChange => 34,
            Type::BandwidthRequest => 35,
            Type::Doorbell => 36,
            Type::HostController => 37,
            Type::DeviceNotification => 38,
            Type::MfindexWrap => 39,
        }
    }

    /// Returns the field encoding of this value.
    pub fn value(self) -> (r: u32)
        ensures
            r == self.spec_value(),
    {
        match self {
            Type::Normal => 1,
            Type::SetupStage => 2,
            Type::DataStage => 3,
            Type::StatusStage => 4,
            Type::Isoch => 5,
            Type::Link => 6,
            Type::EventData => 7,
            Type::NoOp => 8,
            Type::EnableSlot => 9,
            Type::DisableSlot => 10,
            Type::AddressDevice => 11,
            Type::ConfigureEndpoint => 12,
            Type::EvaluateContext => 13,
            Type::ResetEndpoint => 14,
            Type::StopEndpoint => 15,
            Type::SetTrDequeuePointer => 16,
            Type::ResetDevice => 17,
            Type::ForceEvent => 18,
            Type::NegotiateBandwidth => 19,
            Type::SetLatencyToleranceValue => 20,
            Type::GetPortBandwidth => 21,
            Type::ForceHeader => 22,
            Type::NoOpCommand => 23,
            Type::GetExtendedProperty => 24,
            Type::SetExtendedProperty => 25,
            Type::TransferEvent => 32,
            Type::CommandCompletion => 33,
            Type::PortStatusChange => 34,
            Type::BandwidthRequest => 35,
            Type::Doorbell => 36,
            Type::HostController => 37,
            Type::DeviceNotification => 38,
            Type::MfindexWrap => 39,
        }
    }

    /// The value a field encoding stands for, or `None` for a reserved
    /// pattern.
    pub open spec fn spec_from(v: u32) -> Option<Type> {
        if v == 1 {
            Some(Type::Normal)
        } else if v == 2 {
            Some(Type::SetupStage)
        } else if v == 3 {
            Some(Type::DataStage)
        } else if v == 4 {
            Some(Type::StatusStage)
        } else if v == 5 {
            Some(Type::Isoch)
        } else if v == 6 {
            Some(Type::Link)
        } else if v == 7 {
            Some(Type::EventData)
        } else if v == 8 {
            Some(Type::NoOp)
        } else if v == 9 {
            Some(Type::EnableSlot)
        } else if v == 10 {
            Some(Type::DisableSlot)
        } else if v == 11 {
            Some(Type::AddressDevice)
        } else if v == 12 {
            Some(Type::ConfigureEndpoint)
        } else if v == 13 {
            Some(Type::EvaluateContext)
        } else if v == 14 {
            Some(Type::ResetEndpoint)
        } else if v == 15 {
            Some(Type::StopEndpoint)
        } else if v == 16 {
            Some(Type::SetTrDequeuePointer)
        } else if v == 17 {
            Some(Type::ResetDevice)
        } else if v == 18 {
            Some(Type::ForceEvent)
        } else if v == 19 {
            Some(Type::NegotiateBandwidth)
        } else if v == 20 {
            Some(Type::SetLatencyToleranceValue)
        } else if v == 21 {
            Some(Type::GetPortBandwidth)
        } else if v == 22 {
            Some(Type::ForceHeader)
        } else if v == 23 {
            Some(Type::NoOpCommand)
        } else if v == 24 {
            Some(Type::GetExtendedProperty)
        } else if v == 25 {
            Some(Type::SetExtendedProperty)
        } else if v == 32 {
            Some(Type::TransferEvent)
        } else if v == 33 {
            Some(Type::CommandCompletion)
        } else if v == 34 {
            Some(Type::PortStatusChange)
        } else if v == 35 {
            Some(Type::BandwidthRequest)
        } else if v == 36 {
            Some(Type::Doorbell)
        } else if v == 37 {
            Some(Type::HostController)
        } else if v == 38 {
            Some(Type::DeviceNotification)
        } else if v == 39 {
            Some(Type::MfindexWrap)
        } else {
            None
        }
    }

    /// Decodes a field encoding; `None` for a reserved pattern.
    pub fn from_value(v: u32) -> (r: Option<Type>)
        ensures
            r == Type::spec_from(v),
    {
        match v {
            1u32 => Some(Type::Normal),
            2u32 => Some(Type::SetupStage),
            3u32 => Some(Type::DataStage),
            4u32 => Some(Type::StatusStage),
            5u32 => Some(Type::Isoch),
            6u32 => Some(Type::Link),
            7u32 => Some(Type::EventData),
            8u32 => Some(Type::NoOp),
            9u32 => Some(Type::EnableSlot),
            10u32 => Some(Type::DisableSlot),
            11u32 => Some(Type::AddressDevice),
            12u32 => Some(Type::ConfigureEndpoint),
            13u32 => Some(Type::EvaluateContext),
            14u32 => Some(Type::ResetEndpoint),
            15u32 => Some(Type::StopEndpoint),
            16u32 => Some(Type::SetTrDequeuePointer),
            17u32 => Some(Type::ResetDevice),
            18u32 => Some(Type::ForceEvent),
            19u32 => Some(Type::NegotiateBandwidth),
            20u32 => Some(Type::SetLatencyToleranceValue),
            21u32 => Some(Type::GetPortBandwidth),
            22u32 => Some(Type::ForceHeader),
            23u32 => Some(Type::NoOpCommand),
            24u32 => Some(Type::GetExtendedProperty),
            25u32 => Some(Type::SetExtendedProperty),
            32u32 => Some(Type::TransferEvent),
            33u32 => Some(Type::CommandCompletion),
            34u32 => Some(Type::PortStatusChange),
            35u32 => Some(Type::BandwidthRequest),
            36u32 => Some(Type::Doorbell),
            37u32 => Some(Type::HostController),
            38u32 => Some(Type::DeviceNotification),
            39u32 => Some(Type::MfindexWrap),
            _ => None,
        }
    }
}

/// Encoding a value and decoding it yields the value back.
pub proof fn lemma_type_roundtrip(s: Type)
    ensures
        Type::spec_from(s.spec_value()) == Some(s),
{
}

/// TRB Block: one 16-byte, four-dword ring entry, carried as an opaque
/// payload with its cycle bit, chain bit and type accessible.
#[derive(Copy, Clone, PartialEq, Eq, Debug, Default, Hash, Structural)]
pub struct Block {
    /// Dword 0.
    pub dw0: u32,
    /// Dword 1.
    pub dw1: u32,
    /// Dword 2.
    pub dw2: u32,
    /// Dword 3, which carries the cycle bit, the chain bit and the TRB
    /// Type.
    pub dw3: u32,
}

/// `b` with its cycle bit forced to `cycle` and every other bit unchanged.
pub open spec fn spec_with_cycle(b: Block, cycle: bool) -> Block {
    Block { dw3: bits::with_bit32(b.dw3, 0, cycle), ..b }
}

/// The all-zero block with its cycle bit forced to `cycle`: what freshly
/// initialized ring memory holds.
pub open spec fn spec_zero_block(cycle: bool) -> Block {
    Block { dw0: 0, dw1: 0, dw2: 0, dw3: if cycle { 1u32 } else { 0u32 } }
}

/// The Link TRB that points at `ring_segment_pointer`, with the given
/// Toggle Cycle bit (dword 3 bit 1) and its cycle bit clear.
pub open spec fn spec_link(ring_segment_pointer: u64, toggle_cycle: bool) -> Block {
    Block {
        dw0: ring_segment_pointer as u32,
        dw1: (ring_segment_pointer >> 32) as u32,
        dw2: 0,
        dw3: if toggle_cycle { 0x1802u32 } else { 0x1800u32 },
    }
}

impl Block {
    /// Creates a block from its raw dwords.
    pub fn new(raw: [u32; 4]) -> (r: Self)
        ensures
            r == (Block { dw0: raw[0], dw1: raw[1], dw2: raw[2], dw3: raw[3] }),
    {
        Block { dw0: raw[0], dw1: raw[1], dw2: raw[2], dw3: raw[3] }
    }

    /// Returns the raw dwords.
    pub fn into_raw(self) -> (r: [u32; 4])
        ensures
            r[0] == self.dw0,
            r[1] == self.dw1,
            r[2] == self.dw2,
            r[3] == self.dw3,
    {
        [self.dw0, self.dw1, self.dw2, self.dw3]
    }

    /// Creates an otherwise zero (invalid) block with the given cycle bit:
    /// the value freshly initialized ring memory is filled with.
    pub fn zero_with_cycle_bit(cycle_bit: bool) -> (r: Self)
        ensures
            r == spec_zero_block(cycle_bit),
    {
        Block { dw0: 0, dw1: 0, dw2: 0, dw3: if cycle_bit { 1u32 } else { 0u32 } }
    }

    /// Returns the Cycle bit.
    pub fn cycle_bit(&self) -> (r: bool)
        ensures
            r == bits::bit32(self.dw3, 0),
    {
        bits::get_bit32(self.dw3, 0)
    }

    /// Sets the Cycle bit.
    pub fn set_cycle_bit(&mut self)
        ensures
            *final(self) == spec_with_cycle(*old(self), true),
    {
        self.dw3 = bits::set_bit32(self.dw3, 0, true);
    }

    /// Clears the Cycle bit.
    pub fn clear_cycle_bit(&mut self)
        ensures
            *final(self) == spec_with_cycle(*old(self), false),
    {
        self.dw3 = bits::set_bit32(self.dw3, 0, false);
    }

    /// Returns the Chain bit.
    pub fn chain_bit(&self) -> (r: bool)
        ensures
            r == bits::bit32(self.dw3, 4),
    {
        bits::get_bit32(self.dw3, 4)
    }

    /// Sets the Chain bit.
    pub fn set_chain_bit(&mut self)
        ensures
            final(self).dw3 == bits::with_bit32(old(self).dw3, 4, true),
            final(self).dw0 == old(self).dw0,
            final(self).dw1 == old(self).dw1,
            final(self).dw2 == old(self).dw2,
    {
        self.dw3 = bits::set_bit32(self.dw3, 4, true);
    }

    /// Clears the Chain bit.
    pub fn clear_chain_bit(&mut self)
        ensures
            final(self).dw3 == bits::with_bit32(old(self).dw3, 4, false),
            final(self).dw0 == old(self).dw0,
            final(self).dw1 == old(self).dw1,
            final(self).dw2 == old(self).dw2,
    {
        self.dw3 = bits::set_bit32(self.dw3, 4, false);
    }

    /// The TRB Type encoded in this block, or `None` for an unknown code.
    pub open spec fn spec_trb_type(self) -> Option<Type> {
        Type::spec_from(bits::field32(self.dw3, 10, 6))
    }

    /// Returns the TRB Type, or `None` for an unknown code.
    pub fn trb_type(&self) -> (r: Option<Type>)
        ensures
            r == self.spec_trb_type(),
    {
        Type::from_value(bits::get_field32(self.dw3, 10, 6))
    }

    /// Builds the Link TRB that chains to the segment at
    /// `ring_segment_pointer` (which must be 16-byte aligned), with the
    /// given Toggle Cycle bit and the cycle bit clear.
    pub fn link(ring_segment_pointer: u64, toggle_cycle: bool) -> (r: Block)
        requires
            ring_segment_pointer % 16 == 0,
        ensures
            r == spec_link(ring_segment_pointer, toggle_cycle),
    {
        Block {
            dw0: ring_segment_pointer as u32,
            dw1: (ring_segment_pointer >> 32) as u32,
            dw2: 0,
            dw3: if toggle_cycle { 0x1802u32 } else { 0x1800u32 },
        }
    }
}

/// Whether a block may be pushed onto a Command Ring: its type must be a
/// command or a Link TRB.
pub open spec fn spec_command_allowed(b: Block) -> bool {
    match b.spec_trb_type() {
        Some(t) => match t {
            Type::Link | Type::EnableSlot | Type::DisableSlot | Type::AddressDevice
            | Type::ConfigureEndpoint | Type::EvaluateContext | Type::ResetEndpoint
            | Type::StopEndpoint | Type::SetTrDequeuePointer | Type::ResetDevice
            | Type::ForceEvent | Type::NegotiateBandwidth | Type::SetLatencyToleranceValue
            | Type::GetPortBandwidth | Type::ForceHeader | Type::NoOpCommand
            | Type::GetExtendedProperty | Type::SetExtendedProperty => true,
            _ => false,
        },
        None => false,
    }
}

/// Returns whether a block may be pushed onto a Command Ring.
pub fn command_allowed(b: &Block) -> (r: bool)
    ensures
        r == spec_command_allowed(*b),
{
    match b.trb_type() {
        Some(t) => match t {
            Type::Link | Type::EnableSlot | Type::DisableSlot | Type::AddressDevice
            | Type::ConfigureEndpoint | Type::EvaluateContext | Type::ResetEndpoint
            | Type::StopEndpoint | Type::SetTrDequeuePointer | Type::ResetDevice
            | Type::ForceEvent | Type::NegotiateBandwidth | Type::SetLatencyToleranceValue
            | Type::GetPortBandwidth | Type::ForceHeader | Type::NoOpCommand
            | Type::GetExtendedProperty | Type::SetExtendedProperty => true,
            _ => false,
        },
        None => false,
    }
}

/// Whether a block may be pushed onto a Transfer Ring: its type must be
/// one of the transfer TRBs or a Link TRB.
pub open spec fn spec_transfer_allowed(b: Block) -> bool {
    match b.spec_trb_type() {
        Some(t) => match t {
            Type::Normal | Type::SetupStage | Type::DataStage | Type::StatusStage
            | Type::Isoch | Type::Link | Type::EventData | Type::NoOp => true,
            _ => false,
        },
        None => false,
    }
}

/// Returns whether a block may be pushed onto a Transfer Ring.
pub fn transfer_allowed(b: &Block) -> (r: bool)
    ensures
        r == spec_transfer_allowed(*b),
{
    match b.trb_type() {
        Some(t) => match t {
            Type::Normal | Type::SetupStage | Type::DataStage | Type::StatusStage
            | Type::Isoch | Type::Link | Type::EventData | Type::NoOp => true,
            _ => false,
        },
        None => false,
    }
}

/// A Link TRB built by `spec_link` decodes as a Link TRB, whatever its
/// cycle bit is set to, and is allowed on both producer rings.
pub proof fn lemma_link_type(p: u64, t: bool, c: bool)
    ensures
        spec_with_cycle(spec_link(p, t), c).spec_trb_type() == Some(Type::Link),
        spec_command_allowed(spec_with_cycle(spec_link(p, t), c)),
        spec_transfer_allowed(spec_with_cycle(spec_link(p, t), c)),
{
    let w = spec_with_cycle(spec_link(p, t), c).dw3;
    assert(bits::field32(w, 10, 6) == 6) by (bit_vector)
        requires
            w == bits::with_bit32(if t { 0x1802u32 } else { 0x1800u32 }, 0, c),
    ;
}

} // verus!
