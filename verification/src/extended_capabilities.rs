//! The xHCI Extended Capabilities: the linked list of capability headers
//! that hangs off the Capability registers, and the decoded shape of each
//! recognized capability kind.
//!
//! Each capability begins with a 32-bit header holding its ID and the
//! dword distance to the next capability; a distance of zero ends the
//! list. The walker works over the extended-capability region read as a
//! dword array that starts at the list head, so every offset below is a
//! dword index into that region.

use vstd::prelude::*;

use crate::bits;

pub mod hci_extended_power_management;
pub mod usb_debug;
pub mod usb_legacy_support;
pub mod xhci_extended_message_interrupt;
pub mod xhci_local_memory;
pub mod xhci_message_interrupt;
pub mod xhci_supported_protocol;

verus! {

/// An xHCI Capability Header Register.
#[derive(Copy, Clone, Debug, PartialEq, Eq, Structural)]
pub struct CapabilityHeader(pub u32);

impl CapabilityHeader {
    /// Returns the Cap ID field.
    pub fn id(&self) -> (r: u8)
        ensures
            r == bits::field32(self.0, 0, 8),
    {
        bits::get_field32(self.0, 0, 8) as u8
    }

    /// Returns the Next Offset field: the distance to the next capability
    /// in dwords, or zero at the end of the list.
    pub fn next(&self) -> (r: u8)
        ensures
            r == bits::field32(self.0, 8, 8),
    {
        bits::get_field32(self.0, 8, 8) as u8
    }
}

/// The xHCI Extended Capabilities currently recognized; the walker hands
/// any other ID back as an error carrying the capability's dword offset
/// and ID.
#[allow(missing_debug_implementations)]
pub enum ExtendedCapabilities {
    /// USB Legacy Support.
    UsbLegacySupport(usb_legacy_support::UsbLegacySupport),
    /// xHCI Supported Protocol.
    SupportedProtocol(xhci_supported_protocol::SupportedProtocol),
    /// HCI Extended Power Management.
    ExtendedPowerManagement(hci_extended_power_management::HciExtendedPowerManagement),
    /// xHCI Message Interrupt (MSI).
    MessageInterrupt(xhci_message_interrupt::MessageInterrupt),
    /// xHCI Local Memory.
    LocalMemory(xhci_local_memory::LocalMemory),
    /// USB Debug.
    UsbDebug(usb_debug::Debug),
    /// xHCI Extended Message Interrupt (MSI-X).
    ExtendedMessageInterrupt(xhci_extended_message_interrupt::XhciExtendedMessageInterrupt),
}

/// The dwords a capability with ID `id` at offset `base` occupies, as far
/// as the walker needs to decode it; `None` for an ID it does not
/// recognize.
pub open spec fn spec_payload_dwords(regs: Seq<u32>, base: int, id: u32) -> Option<int> {
    if id == 1 {
        Some(2int)
    } else if id == 2 {
        if base + 3 < regs.len() {
            Some(4 + bits::field32(regs[base + 2], 28, 4) as int)
        } else {
            Some(4int)
        }
    } else if id == 3 {
        Some(2int)
    } else if id == 5 {
        Some(6int)
    } else if id == 6 {
        Some(2int)
    } else if id == 10 {
        Some(16int)
    } else if id == 17 {
        Some(3int)
    } else {
        None
    }
}

/// A cursor over the extended-capability list.
///
/// `next` yields one capability per call: the decoded value for a
/// recognized ID whose registers lie within the region, or the pair of
/// its dword offset and ID otherwise. The cursor tolerates an empty list
/// and terminates in one step on it.
#[derive(Debug)]
pub struct List {
    /// The dword offset of the capability the next call reads.
    pub cur: usize,
    /// Whether the list has more capabilities to yield.
    pub live: bool,
}

impl List {
    /// Creates a cursor at the head of the region.
    pub fn new() -> (r: Self)
        ensures
            r.cur == 0,
            r.live == true,
    {
        List { cur: 0, live: true }
    }

    /// Creates an exhausted cursor: what an absent list (a zero xHCI
    /// Extended Capabilities Pointer) yields.
    pub fn new_empty() -> (r: Self)
        ensures
            r.live == false,
            r.cur == 0,
    {
        List { cur: 0, live: false }
    }
}

/// Exact characterization of what the walker yields for the capability at
/// dword offset `base`: the decoded value of a recognized ID whose
/// registers lie within the region, and the offset-ID pair otherwise.
pub open spec fn spec_item_ok(
    regs: Seq<u32>,
    base: int,
    r: Result<ExtendedCapabilities, (usize, u8)>,
) -> bool {
    let id = bits::field32(regs[base], 0, 8);
    match spec_payload_dwords(regs, base, id) {
        None => r == Result::<ExtendedCapabilities, (usize, u8)>::Err((base as usize, id as u8)),
        Some(sz) => if base + sz > regs.len() {
            r == Result::<ExtendedCapabilities, (usize, u8)>::Err((base as usize, id as u8))
        } else if id == 1 {
            r == Result::<ExtendedCapabilities, (usize, u8)>::Ok(
                ExtendedCapabilities::UsbLegacySupport(usb_legacy_support::spec_read(regs, base)),
            )
        } else if id == 2 {
            r matches Ok(ExtendedCapabilities::SupportedProtocol(sp))
                && sp.header == xhci_supported_protocol::spec_read_header(regs, base)
                && sp.psi_array@ == Seq::new(
                bits::field32(regs[base + 2], 28, 4) as nat,
                |i: int| xhci_supported_protocol::ProtocolSpeedId(regs[base + 4 + i]),
            )
        } else if id == 3 {
            r == Result::<ExtendedCapabilities, (usize, u8)>::Ok(
                ExtendedCapabilities::ExtendedPowerManagement(
                    hci_extended_power_management::spec_read(regs, base),
                ),
            )
        } else if id == 5 {
            r matches Ok(ExtendedCapabilities::MessageInterrupt(mi)) && {
                let ctl = xhci_message_interrupt::spec_read_control(regs, base);
                &&& (bits::bit16(ctl.0, 7) ==> (mi matches
                    xhci_message_interrupt::MessageInterrupt::Addr64(m) && spec_msi_fields(
                    regs,
                    base,
                    m.control,
                    m.addr[0],
                    m.addr[1],
                    m.data,
                    m.mask_bits,
                    m.pending_bits,
                )))
                &&& (!bits::bit16(ctl.0, 7) ==> (mi matches
                    xhci_message_interrupt::MessageInterrupt::Addr32(m) && spec_msi_fields(
                    regs,
                    base,
                    m.control,
                    m.addr[0],
                    m.addr[1],
                    m.data,
                    m.mask_bits,
                    m.pending_bits,
                )))
            }
        } else if id == 6 {
            r matches Ok(ExtendedCapabilities::LocalMemory(lm)) && lm.header.0[0] == regs[base]
                && lm.header.0[1] == regs[base + 1] && lm.memory_offset == base + 2
                && lm.memory_dwords == 256 * (regs[base + 1] as u64)
        } else if id == 10 {
            r == Result::<ExtendedCapabilities, (usize, u8)>::Ok(
                ExtendedCapabilities::UsbDebug(usb_debug::spec_read(regs, base)),
            )
        } else {
            r == Result::<ExtendedCapabilities, (usize, u8)>::Ok(
                ExtendedCapabilities::ExtendedMessageInterrupt(
                    xhci_extended_message_interrupt::spec_read(regs, base),
                ),
            )
        },
    }
}

/// The fields a decoded Message Interrupt capability carries, shared by
/// its 32-bit and 64-bit shapes.
pub open spec fn spec_msi_fields(
    regs: Seq<u32>,
    base: int,
    control: xhci_message_interrupt::MessageControl,
    addr0: u32,
    addr1: u32,
    data: u16,
    mask_bits: u32,
    pending_bits: u32,
) -> bool {
    &&& control == xhci_message_interrupt::spec_read_control(regs, base)
    &&& addr0 == regs[base + 1]
    &&& addr1 == regs[base + 2]
    &&& data == bits::field32(regs[base + 3], 0, 16)
    &&& mask_bits == regs[base + 4]
    &&& pending_bits == regs[base + 5]
}

/// Decodes the capability with ID `id` at dword offset `base`, checking
/// that its registers lie within the region.
fn read_item(regs: &[u32], base: usize, id: u8) -> (r: Result<ExtendedCapabilities, (usize, u8)>)
    requires
        base < regs@.len(),
        regs@.len() + 256 <= usize::MAX,
        id == bits::field32(regs@[base as int], 0, 8),
    ensures
        spec_item_ok(regs@, base as int, r),
{
    let n: usize = regs.len();
    if id == 1 {
        if base + 2 <= n {
            Ok(
                ExtendedCapabilities::UsbLegacySupport(
                    usb_legacy_support::UsbLegacySupport::read_at(regs, base),
                ),
            )
        } else {
            Err((base, id))
        }
    } else if id == 2 {
        if base + 4 <= n {
            let count: usize = bits::get_field32(regs[base + 2], 28, 4) as usize;
            if base + 4 + count <= n {
                Ok(
                    ExtendedCapabilities::SupportedProtocol(
                        xhci_supported_protocol::SupportedProtocol::read_at(regs, base),
                    ),
                )
            } else {
                Err((base, id))
            }
        } else {
            Err((base, id))
        }
    } else if id == 3 {
        if base + 2 <= n {
            Ok(
                ExtendedCapabilities::ExtendedPowerManagement(
                    hci_extended_power_management::HciExtendedPowerManagement::read_at(regs, base),
                ),
            )
        } else {
            Err((base, id))
        }
    } else if id == 5 {
        if base + 6 <= n {
            let control = xhci_message_interrupt::MessageControl(
                bits::get_field32(regs[base], 16, 16) as u16,
            );
            if control.bit64_address_capable() {
                Ok(
                    ExtendedCapabilities::MessageInterrupt(
                        xhci_message_interrupt::MessageInterrupt::Addr64(
                            xhci_message_interrupt::XhciMessageInterrupt::<2>::read_at(regs, base),
                        ),
                    ),
                )
            } else {
                Ok(
                    ExtendedCapabilities::MessageInterrupt(
                        xhci_message_interrupt::MessageInterrupt::Addr32(
                            xhci_message_interrupt::XhciMessageInterrupt::<1>::read_at(regs, base),
                        ),
                    ),
                )
            }
        } else {
            Err((base, id))
        }
    } else if id == 6 {
        if base + 2 <= n {
            Ok(
                ExtendedCapabilities::LocalMemory(
                    xhci_local_memory::LocalMemory::read_at(regs, base),
                ),
            )
        } else {
            Err((base, id))
        }
    } else if id == 10 {
        if base + 16 <= n {
            Ok(ExtendedCapabilities::UsbDebug(usb_debug::Debug::read_at(regs, base)))
        } else {
            Err((base, id))
        }
    } else if id == 17 {
        if base + 3 <= n {
            Ok(
                ExtendedCapabilities::ExtendedMessageInterrupt(
                    xhci_extended_message_interrupt::XhciExtendedMessageInterrupt::read_at(
                        regs,
                        base,
                    ),
                ),
            )
        } else {
            Err((base, id))
        }
    } else {
        Err((base, id))
    }
}

impl List {
    /// Reads the capability at the cursor and advances past it. Yields
    /// the decoded value for a recognized ID whose registers lie within
    /// `regs`, the pair of the capability's dword offset and ID
    /// otherwise, and `None` once the list is exhausted. A Next Offset of
    /// zero ends the list after the current item.
    pub fn next(&mut self, regs: &[u32]) -> (r: Option<
        Result<ExtendedCapabilities, (usize, u8)>,
    >)
        requires
            regs@.len() + 256 <= usize::MAX,
        ensures
            !old(self).live ==> r is None && *final(self) == *old(self),
            old(self).live && old(self).cur >= regs@.len() ==> r is None && final(self).live
                == false && final(self).cur == old(self).cur,
            old(self).live && old(self).cur < regs@.len() ==> {
                &&& (r matches Some(item) && spec_item_ok(regs@, old(self).cur as int, item))
                &&& (bits::field32(regs@[old(self).cur as int], 8, 8) == 0 ==> final(self).live
                    == false && final(self).cur == old(self).cur)
                &&& (bits::field32(regs@[old(self).cur as int], 8, 8) != 0 ==> final(self).live
                    == true && final(self).cur == old(self).cur + bits::field32(
                    regs@[old(self).cur as int],
                    8,
                    8,
                ))
            },
    {
        if !self.live {
            return None;
        }
        let n: usize = regs.len();
        if self.cur >= n {
            self.live = false;
            return None;
        }
        let base: usize = self.cur;
        let header = CapabilityHeader(regs[base]);
        let id: u8 = header.id();
        let nxt: u8 = header.next();
        if nxt == 0 {
            self.live = false;
        } else {
            self.cur = base + (nxt as usize);
        }
        Some(read_item(regs, base, id))
    }
}


} // verus!
