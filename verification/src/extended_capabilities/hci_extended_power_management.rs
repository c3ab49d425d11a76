//! HCI Extended Power Management Capability.

use vstd::prelude::*;

use crate::bits;

verus! {

/// Power Management Capabilities.
#[derive(Copy, Clone, Debug, PartialEq, Eq, Structural)]
pub struct PowerManagementCapabilities(pub u16);

impl PowerManagementCapabilities {
    /// Returns the PME_Support field.
    pub fn pme_support(&self) -> (r: u8)
        ensures
            r == bits::field16(self.0, 11, 5),
    {
        bits::get_field16(self.0, 11, 5) as u8
    }

    /// Returns the D2_Support bit.
    pub fn d2_support(&self) -> (r: bool)
        ensures
            r == bits::bit16(self.0, 10),
    {
        bits::get_bit16(self.0, 10)
    }

    /// Returns the D1_Support bit.
    pub fn d1_support(&self) -> (r: bool)
        ensures
            r == bits::bit16(self.0, 9),
    {
        bits::get_bit16(self.0, 9)
    }

    /// Returns the Aux_Current field.
    pub fn aux_current(&self) -> (r: u8)
        ensures
            r == bits::field16(self.0, 6, 3),
    {
        bits::get_field16(self.0, 6, 3) as u8
    }

    /// Returns the DSI bit.
    pub fn dsi(&self) -> (r: bool)
        ensures
            r == bits::bit16(self.0, 5),
    {
        bits::get_bit16(self.0, 5)
    }

    /// Returns the PME Clock bit.
    pub fn pme_clock(&self) -> (r: bool)
        ensures
            r == bits::bit16(self.0, 3),
    {
        bits::get_bit16(self.0, 3)
    }

    /// Returns the Version field.
    pub fn version(&self) -> (r: u8)
        ensures
            r == bits::field16(self.0, 0, 3),
    {
        bits::get_field16(self.0, 0, 3) as u8
    }
}

/// Power Management Control/Status Register.
#[derive(Copy, Clone, Debug, PartialEq, Eq, Structural)]
pub struct PowerManagementControlStatusRegister(pub u16);

impl PowerManagementControlStatusRegister {
    /// Returns the PME_Status bit.
    pub fn pme_status(&self) -> (r: bool)
        ensures
            r == bits::bit16(self.0, 15),
    {
        bits::get_bit16(self.0, 15)
    }

    /// Clears the PME_Status bit (on the device, software clears it by writing 1).
    pub fn clear_pme_status(&mut self)
        ensures
            final(self).0 == bits::with_bit16(old(self).0, 15, false),
    {
        self.0 = bits::set_bit16(self.0, 15, false);
    }

    /// Returns the Data_Scale field.
    pub fn data_scale(&self) -> (r: u8)
        ensures
            r == bits::field16(self.0, 13, 2),
    {
        bits::get_field16(self.0, 13, 2) as u8
    }

    /// Returns the Data_Select field.
    pub fn data_select(&self) -> (r: u8)
        ensures
            r == bits::field16(self.0, 9, 4),
    {
        bits::get_field16(self.0, 9, 4) as u8
    }

    /// Sets the Data_Select field.
    pub fn set_data_select(&mut self, v: u8)
        requires
            v <= 0xf,
        ensures
            final(self).0 == bits::with_field16(old(self).0, v as u16, 9, 4),
    {
        self.0 = bits::set_field16(self.0, v as u16, 9, 4);
    }

    /// Returns the PME_En bit.
    pub fn pme_en(&self) -> (r: bool)
        ensures
            r == bits::bit16(self.0, 8),
    {
        bits::get_bit16(self.0, 8)
    }

    /// Sets the PME_En bit.
    pub fn set_pme_en(&mut self)
        ensures
            final(self).0 == bits::with_bit16(old(self).0, 8, true),
    {
        self.0 = bits::set_bit16(self.0, 8, true);
    }

    /// Clears the PME_En bit.
    pub fn clear_pme_en(&mut self)
        ensures
            final(self).0 == bits::with_bit16(old(self).0, 8, false),
    {
        self.0 = bits::set_bit16(self.0, 8, false);
    }

    /// Returns the PowerState field.
    pub fn power_state(&self) -> (r: u8)
        ensures
            r == bits::field16(self.0, 0, 2),
    {
        bits::get_field16(self.0, 0, 2) as u8
    }

    /// Sets the PowerState field.
    pub fn set_power_state(&mut self, v: u8)
        requires
            v <= 0x3,
        ensures
            final(self).0 == bits::with_field16(old(self).0, v as u16, 0, 2),
    {
        self.0 = bits::set_field16(self.0, v as u16, 0, 2);
    }
}

/// `PMESR_BSE` Register.
#[derive(Copy, Clone, Debug, PartialEq, Eq, Structural)]
pub struct PmesrBse(pub u8);

impl PmesrBse {
    /// Returns the BPCC_En bit.
    pub fn bpcc_en(&self) -> (r: bool)
        ensures
            r == bits::bit32((self.0 as u32), 7),
    {
        bits::get_bit32((self.0 as u32), 7)
    }

    /// Returns the B2_B3 bit.
    pub fn b2_b3(&self) -> (r: bool)
        ensures
            r == bits::bit32((self.0 as u32), 6),
    {
        bits::get_bit32((self.0 as u32), 6)
    }
}

/// HCI Extended Power Management Capability.
#[derive(Copy, Clone, Debug, PartialEq, Eq, Structural)]
pub struct HciExtendedPowerManagement {
    /// Power Management Capabilities.
    pub pmc: PowerManagementCapabilities,
    /// Power Management Control/Status Register.
    pub pmcsr: PowerManagementControlStatusRegister,
    /// PMESR_BSE.
    pub pmcsr_bse: PmesrBse,
    /// Data.
    pub data: u8,
}

/// The Power Management value encoded at dword offset `base` of `regs`:
/// the capability header shares the first dword with the PMC register,
/// and the second dword packs PMCSR, PMESR_BSE and the data byte.
pub open spec fn spec_read(regs: Seq<u32>, base: int) -> HciExtendedPowerManagement {
    HciExtendedPowerManagement {
        pmc: PowerManagementCapabilities(bits::field32(regs[base], 16, 16) as u16),
        pmcsr: PowerManagementControlStatusRegister(bits::field32(regs[base + 1], 0, 16) as u16),
        pmcsr_bse: PmesrBse(bits::field32(regs[base + 1], 16, 8) as u8),
        data: bits::field32(regs[base + 1], 24, 8) as u8,
    }
}

impl HciExtendedPowerManagement {
    /// Decodes the capability from the dwords at offset `base`.
    pub fn read_at(regs: &[u32], base: usize) -> (r: Self)
        requires
            base + 2 <= regs@.len(),
        ensures
            r == spec_read(regs@, base as int),
    {
        HciExtendedPowerManagement {
            pmc: PowerManagementCapabilities(bits::get_field32(regs[base], 16, 16) as u16),
            pmcsr: PowerManagementControlStatusRegister(
                bits::get_field32(regs[base + 1], 0, 16) as u16,
            ),
            pmcsr_bse: PmesrBse(bits::get_field32(regs[base + 1], 16, 8) as u8),
            data: bits::get_field32(regs[base + 1], 24, 8) as u8,
        }
    }
}

} // verus!