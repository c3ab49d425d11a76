//! xHCI Supported Protocol Capability.

use vstd::prelude::*;

use crate::bits;
use crate::error::Error;

verus! {

/// The header of the xHCI Supported Protocol Capability: four dwords,
/// not including the Protocol Speed ID array.
#[derive(Copy, Clone, Debug, PartialEq, Eq)]
pub struct Header(pub [u32; 4]);

impl Header {
    /// Returns the Minor Revision field.
    pub fn minor_revision(&self) -> (r: u8)
        ensures
            r == bits::field32(self.0[0], 16, 8),
    {
        bits::get_field32(self.0[0], 16, 8) as u8
    }

    /// Returns the Major Revision field.
    pub fn major_revision(&self) -> (r: u8)
        ensures
            r == bits::field32(self.0[0], 24, 8),
    {
        bits::get_field32(self.0[0], 24, 8) as u8
    }

    /// Returns the Name String field.
    pub fn name_string(&self) -> (r: u32)
        ensures
            r == bits::field32(self.0[1], 0, 32),
    {
        bits::get_field32(self.0[1], 0, 32)
    }

    /// Returns the Compatible Port Offset field.
    pub fn compatible_port_offset(&self) -> (r: u8)
        ensures
            r == bits::field32(self.0[2], 0, 8),
    {
        bits::get_field32(self.0[2], 0, 8) as u8
    }

    /// Returns the Compatible Port Count field.
    pub fn compatible_port_count(&self) -> (r: u8)
        ensures
            r == bits::field32(self.0[2], 8, 8),
    {
        bits::get_field32(self.0[2], 8, 8) as u8
    }

    /// Returns the High-Speed Only (**USB2**) bit.
    pub fn high_speed_only(&self) -> (r: bool)
        ensures
            r == bits::bit32(self.0[2], 17),
    {
        bits::get_bit32(self.0[2], 17)
    }

    /// Returns the Integrated Hub Implemented (**USB2**) bit.
    pub fn integrated_hub_implemented(&self) -> (r: bool)
        ensures
            r == bits::bit32(self.0[2], 18),
    {
        bits::get_bit32(self.0[2], 18)
    }

    /// Returns the Hardware LPM Capability (**USB2**) bit.
    pub fn hardware_lpm_capability(&self) -> (r: bool)
        ensures
            r == bits::bit32(self.0[2], 19),
    {
        bits::get_bit32(self.0[2], 19)
    }

    /// Returns the BESL LPM Capability (**USB2**) bit.
    pub fn besl_lpm_capability(&self) -> (r: bool)
        ensures
            r == bits::bit32(self.0[2], 20),
    {
        bits::get_bit32(self.0[2], 20)
    }

    /// Returns the Link Soft Error Count Capability (**USB3**) bit.
    pub fn link_soft_error_count_capability(&self) -> (r: bool)
        ensures
            r == bits::bit32(self.0[2], 24),
    {
        bits::get_bit32(self.0[2], 24)
    }

    /// Returns the Hub Depth field.
    pub fn hub_depth(&self) -> (r: u8)
        ensures
            r == bits::field32(self.0[2], 25, 3),
    {
        bits::get_field32(self.0[2], 25, 3) as u8
    }

    /// Returns the Protocol Speed ID Count field.
    pub fn protocol_speed_id_count(&self) -> (r: u8)
        ensures
            r == bits::field32(self.0[2], 28, 4),
    {
        bits::get_field32(self.0[2], 28, 4) as u8
    }

    /// Returns the Protocol Slot Type field.
    pub fn protocol_slot_type(&self) -> (r: u8)
        ensures
            r == bits::field32(self.0[3], 0, 5),
    {
        bits::get_field32(self.0[3], 0, 5) as u8
    }
}

/// Protocol Speed ID.
#[derive(Copy, Clone, Debug, PartialEq, Eq, Structural)]
pub struct ProtocolSpeedId(pub u32);

impl ProtocolSpeedId {
    /// Returns the Protocol Speed ID Value field.
    pub fn protocol_speed_id_value(&self) -> (r: u8)
        ensures
            r == bits::field32(self.0, 0, 4),
    {
        bits::get_field32(self.0, 0, 4) as u8
    }

    /// Returns the value of the Protocol Speed ID Exponent field. Every
    /// two-bit pattern is a defined bit rate.
    pub fn protocol_speed_id_exponent(self) -> (r: BitRate)
        ensures
            Some(r) == BitRate::spec_from(bits::field32(self.0, 4, 2)),
    {
        match bits::get_field32(self.0, 4, 2) {
            0u32 => BitRate::Bits,
            1u32 => BitRate::Kb,
            2u32 => BitRate::Mb,
            _ => BitRate::Gb,
        }
    }

    /// Returns the value of the PSI Type field, or `ReservedValue` for
    /// the reserved pattern.
    pub fn psi_type(self) -> (r: Result<PsiType, Error>)
        ensures
            PsiType::spec_from(bits::field32(self.0, 6, 2)) matches Some(t) ==> r == Ok::<
                PsiType,
                Error,
            >(t),
            PsiType::spec_from(bits::field32(self.0, 6, 2)) is None ==> r == Err::<PsiType, Error>(
                Error::ReservedValue,
            ),
    {
        match PsiType::from_value(bits::get_field32(self.0, 6, 2)) {
            Some(t) => Ok(t),
            None => Err(Error::ReservedValue),
        }
    }

    /// Returns the value of the Link Protocol field, or `ReservedValue`
    /// for a reserved pattern.
    pub fn link_protocol(self) -> (r: Result<LinkProtocol, Error>)
        ensures
            LinkProtocol::spec_from(bits::field32(self.0, 14, 2)) matches Some(p) ==> r == Ok::<
                LinkProtocol,
                Error,
            >(p),
            LinkProtocol::spec_from(bits::field32(self.0, 14, 2)) is None ==> r == Err::<
                LinkProtocol,
                Error,
            >(Error::ReservedValue),
    {
        match LinkProtocol::from_value(bits::get_field32(self.0, 14, 2)) {
            Some(p) => Ok(p),
            None => Err(Error::ReservedValue),
        }
    }

    /// Returns the PSI Full-Duplex bit.
    pub fn psi_full_duplex(&self) -> (r: bool)
        ensures
            r == bits::bit32(self.0, 8),
    {
        bits::get_bit32(self.0, 8)
    }

    /// Returns the Protocol Speed ID Mantissa field.
    pub fn protocol_speed_id_mantissa(&self) -> (r: u16)
        ensures
            r == bits::field32(self.0, 16, 16),
    {
        bits::get_field32(self.0, 16, 16) as u16
    }
}

/// Bit Rate: the unit of a Protocol Speed ID Exponent.
#[derive(Copy, Clone, Debug, PartialEq, Eq, PartialOrd, Ord, Hash, Structural)]
pub enum BitRate {
    /// Bits per second.
    Bits,
    /// Kb/s.
    Kb,
    /// Mb/s.
    Mb,
    /// Gb/s.
    Gb,
}

impl BitRate {
    /// The field encoding of this value.
    pub open spec fn spec_value(self) -> u32 {
        match self {
            BitRate::Bits => 0,
            BitRate::Kb => 1,
            BitRate::Mb => 2,
            BitRate::Gb => 3,
        }
    }

    /// Returns the field encoding of this value.
    pub fn value(self) -> (r: u32)
        ensures
            r == self.spec_value(),
    {
        match self {
            BitRate::Bits => 0,
            BitRate::Kb => 1,
            BitRate::Mb => 2,
            BitRate::Gb => 3,
        }
    }

    /// The value a field encoding stands for, or `None` for a reserved
    /// pattern.
    pub open spec fn spec_from(v: u32) -> Option<BitRate> {
        if v == 0 {
            Some(BitRate::Bits)
        } else if v == 1 {
            Some(BitRate::Kb)
        } else if v == 2 {
            Some(BitRate::Mb)
        } else if v == 3 {
            Some(BitRate::Gb)
        } else {
            None
        }
    }

    /// Decodes a field encoding; `None` for a reserved pattern.
    pub fn from_value(v: u32) -> (r: Option<BitRate>)
        ensures
            r == BitRate::spec_from(v),
    {
        match v {
            0u32 => Some(BitRate::Bits),
            1u32 => Some(BitRate::Kb),
            2u32 => Some(BitRate::Mb),
            3u32 => Some(BitRate::Gb),
            _ => None,
        }
    }
}

/// Encoding a value and decoding it yields the value back.
pub proof fn lemma_bit_rate_roundtrip(s: BitRate)
    ensures
        BitRate::spec_from(s.spec_value()) == Some(s),
{
}

/// PSI Type.
#[derive(Copy, Clone, Debug, PartialEq, Eq, PartialOrd, Ord, Hash, Structural)]
pub enum PsiType {
    /// Symmetric. Single DSI Dword.
    Symmetric,
    /// Asymmetric Rx. Paired with an Asymmetric Tx PSI Dword.
    AsymmetricRx,
    /// Asymmetric Tx. Immediately follows the Rx Asymmetric PSI Dword.
    AsymmetricTx,
}

impl PsiType {
    /// The field encoding of this value.
    pub open spec fn spec_value(self) -> u32 {
        match self {
            PsiType::Symmetric => 0,
            PsiType::AsymmetricRx => 2,
            PsiType::AsymmetricTx => 3,
        }
    }

    /// Returns the field encoding of this value.
    pub fn value(self) -> (r: u32)
        ensures
            r == self.spec_value(),
    {
        match self {
            PsiType::Symmetric => 0,
            PsiType::AsymmetricRx => 2,
            PsiType::AsymmetricTx => 3,
        }
    }

    /// The value a field encoding stands for, or `None` for a reserved
    /// pattern.
    pub open spec fn spec_from(v: u32) -> Option<PsiType> {
        if v == 0 {
            Some(PsiType::Symmetric)
        } else if v == 2 {
            Some(PsiType::AsymmetricRx)
        } else if v == 3 {
            Some(PsiType::AsymmetricTx)
        } else {
            None
        }
    }

    /// Decodes a field encoding; `None` for a reserved pattern.
    pub fn from_value(v: u32) -> (r: Option<PsiType>)
        ensures
            r == PsiType::spec_from(v),
    {
        match v {
            0u32 => Some(PsiType::Symmetric),
            2u32 => Some(PsiType::AsymmetricRx),
            3u32 => Some(PsiType::AsymmetricTx),
            _ => None,
        }
    }
}

/// Encoding a value and decoding it yields the value back.
pub proof fn lemma_psi_type_roundtrip(s: PsiType)
    ensures
        PsiType::spec_from(s.spec_value()) == Some(s),
{
}

/// Link-level protocol.
#[derive(Copy, Clone, Debug, PartialEq, Eq, PartialOrd, Ord, Hash, Structural)]
pub enum LinkProtocol {
    /// Super Speed.
    SuperSpeed,
    /// Super Speed Plus.
    SuperSpeedPlus,
}

impl LinkProtocol {
    /// The field encoding of this value.
    pub open spec fn spec_value(self) -> u32 {
        match self {
            LinkProtocol::SuperSpeed => 0,
            LinkProtocol::SuperSpeedPlus => 1,
        }
    }

    /// Returns the field encoding of this value.
    pub fn value(self) -> (r: u32)
        ensures
            r == self.spec_value(),
    {
        match self {
            LinkProtocol::SuperSpeed => 0,
            LinkProtocol::SuperSpeedPlus => 1,
        }
    }

    /// The value a field encoding stands for, or `None` for a reserved
    /// pattern.
    pub open spec fn spec_from(v: u32) -> Option<LinkProtocol> {
        if v == 0 {
            Some(LinkProtocol::SuperSpeed)
        } else if v == 1 {
            Some(LinkProtocol::SuperSpeedPlus)
        } else {
            None
        }
    }

    /// Decodes a field encoding; `None` for a reserved pattern.
    pub fn from_value(v: u32) -> (r: Option<LinkProtocol>)
        ensures
            r == LinkProtocol::spec_from(v),
    {
        match v {
            0u32 => Some(LinkProtocol::SuperSpeed),
            1u32 => Some(LinkProtocol::SuperSpeedPlus),
            _ => None,
        }
    }
}

/// Encoding a value and decoding it yields the value back.
pub proof fn lemma_link_protocol_roundtrip(s: LinkProtocol)
    ensures
        LinkProtocol::spec_from(s.spec_value()) == Some(s),
{
}

/// xHCI Supported Protocol Capability: the four-dword header followed by
/// its Protocol Speed ID dwords.
pub struct SupportedProtocol {
    /// The header part.
    pub header: Header,
    /// The Protocol Speed ID array; its length is the header's Protocol
    /// Speed ID Count.
    pub psi_array: Vec<ProtocolSpeedId>,
}

/// The Supported Protocol header encoded at dword offset `base` of
/// `regs`.
pub open spec fn spec_read_header(regs: Seq<u32>, base: int) -> Header {
    Header([regs[base], regs[base + 1], regs[base + 2], regs[base + 3]])
}

impl SupportedProtocol {
    /// Decodes the capability from the dwords at offset `base`; the PSI
    /// array of the length the header declares must lie within `regs`.
    pub fn read_at(regs: &[u32], base: usize) -> (r: Self)
        requires
            base + 4 <= regs@.len(),
            base + 4 + bits::field32(regs@[base + 2], 28, 4) <= regs@.len(),
        ensures
            r.header == spec_read_header(regs@, base as int),
            r.psi_array@ == Seq::new(
                bits::field32(regs@[base + 2], 28, 4) as nat,
                |i: int| ProtocolSpeedId(regs@[base + 4 + i]),
            ),
    {
        let header = Header([regs[base], regs[base + 1], regs[base + 2], regs[base + 3]]);
        let count: usize = header.protocol_speed_id_count() as usize;
        let n: usize = regs.len();
        let mut psi_array: Vec<ProtocolSpeedId> = Vec::new();
        let mut k: usize = 0;
        while k < count
            invariant
                k <= count,
                n == regs@.len(),
                base + 4 + count <= n,
                psi_array.len() == k,
                count == bits::field32(regs@[base + 2], 28, 4),
                forall|i: int| 0 <= i < k ==> psi_array@[i] == ProtocolSpeedId(regs@[base + 4 + i]),
            decreases count - k,
        {
            psi_array.push(ProtocolSpeedId(regs[base + 4 + k]));
            k += 1;
        }
        proof {
            assert(psi_array@ =~= Seq::new(
                bits::field32(regs@[base + 2], 28, 4) as nat,
                |i: int| ProtocolSpeedId(regs@[base + 4 + i]),
            ));
        }
        SupportedProtocol { header, psi_array }
    }
}

} // verus!