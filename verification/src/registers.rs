//! The access point to the xHCI register file: address derivation for
//! every register region from one MMIO base and one Capability snapshot.

use vstd::prelude::*;

use crate::bits;
use crate::capability::Capability;
use crate::error::Error;
use crate::extended_capabilities::List;

verus! {

/// The derived addresses of the xHCI register regions.
///
/// The caller reads the Capability registers once at `mmio_base` and the
/// derivation runs eagerly from that single snapshot: every field below
/// is fixed for the life of the controller mapping.
#[derive(Copy, Clone, Debug)]
pub struct Registers {
    /// The MMIO base address the controller is mapped at.
    pub mmio_base: u64,
    /// The Capability register snapshot the layout was derived from.
    pub capability: Capability,
    /// Base of the Operational registers: `mmio_base + caplength`.
    pub operational_base: u64,
    /// Base of the Port Register Set array, 0x400 bytes into the
    /// Operational registers.
    pub port_register_set_base: u64,
    /// Length of the Port Register Set array, 16 bytes per port.
    pub port_count: usize,
    /// Base of the Runtime registers: `mmio_base + rtsoff`.
    pub runtime_base: u64,
    /// Base of the Interrupter Register Set array, 0x20 bytes into the
    /// Runtime registers.
    pub interrupter_register_set_base: u64,
    /// Length of the Interrupter Register Set array.
    pub interrupter_count: usize,
    /// Base of the Doorbell array: `mmio_base + dboff`.
    pub doorbell_base: u64,
    /// Length of the Doorbell array, one dword per device slot; index 0
    /// is the Command Ring doorbell.
    pub doorbell_count: usize,
    /// Head of the extended-capability list, or `None` when the
    /// Capability registers point at no list.
    pub extended_capabilities_base: Option<u64>,
}

impl Registers {
    /// Derives the register-region addresses from the MMIO base and the
    /// Capability snapshot read there. A null `mmio_base` is rejected
    /// with `NullMmioBase`.
    pub fn new(mmio_base: u64, capability: Capability) -> (r: Result<Registers, Error>)
        requires
            // The whole register file must lie below the address-space
            // limit; every region offset fits in 33 bits.
            mmio_base + 0x2_0000_0000 <= u64::MAX,
        ensures
            mmio_base == 0 ==> r == Err::<Registers, Error>(Error::NullMmioBase),
            mmio_base != 0 ==> (r matches Ok(regs) && regs == (Registers {
                mmio_base,
                capability,
                operational_base: (mmio_base + capability.caplength.0) as u64,
                port_register_set_base: (mmio_base + capability.caplength.0 + 0x400) as u64,
                port_count: bits::field32(capability.hcsparams1.0, 24, 8) as usize,
                runtime_base: (mmio_base + capability.rtsoff.0) as u64,
                interrupter_register_set_base: (mmio_base + capability.rtsoff.0 + 0x20) as u64,
                interrupter_count: 1024usize,
                doorbell_base: (mmio_base + capability.dboff.0) as u64,
                doorbell_count: bits::field32(capability.hcsparams1.0, 0, 8) as usize,
                extended_capabilities_base: if bits::field32(capability.hccparams1.0, 16, 16)
                    == 0 {
                    None
                } else {
                    Some((mmio_base + 4 * bits::field32(capability.hccparams1.0, 16, 16)) as u64)
                },
            })),
    {
        if mmio_base == 0 {
            return Err(Error::NullMmioBase);
        }
        let operational_base: u64 = mmio_base + (capability.caplength.get() as u64);
        let port_register_set_base: u64 = operational_base + 0x400;
        let port_count: usize = capability.hcsparams1.number_of_ports() as usize;
        let runtime_base: u64 = mmio_base + (capability.rtsoff.get() as u64);
        let interrupter_register_set_base: u64 = runtime_base + 0x20;
        let doorbell_base: u64 = mmio_base + (capability.dboff.get() as u64);
        let doorbell_count: usize = capability.hcsparams1.number_of_device_slots() as usize;
        let xecp: u32 = capability.hccparams1.xhci_extended_capabilities_pointer() as u32;
        let extended_capabilities_base: Option<u64> = if xecp == 0 {
            None
        } else {
            Some(mmio_base + 4 * (xecp as u64))
        };
        Ok(
            Registers {
                mmio_base,
                capability,
                operational_base,
                port_register_set_base,
                port_count,
                runtime_base,
                interrupter_register_set_base,
                interrupter_count: 1024,
                doorbell_base,
                doorbell_count,
                extended_capabilities_base,
            },
        )
    }
}

impl Registers {
    /// Returns a cursor over the extended-capability list: an exhausted
    /// one when the Capability registers point at no list, so that the
    /// empty list terminates in one step.
    pub fn extended_capabilities(&self) -> (r: List)
        ensures
            r.live == (self.extended_capabilities_base is Some),
            r.cur == 0,
    {
        match self.extended_capabilities_base {
            Some(_) => List::new(),
            None => List::new_empty(),
        }
    }
}

} // verus!
