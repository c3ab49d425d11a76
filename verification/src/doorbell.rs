//! Doorbell Register.

use vstd::prelude::*;

use crate::bits;

verus! {

/// An element of the Doorbell Array. Index 0 rings the Command Ring doorbell.
#[derive(Copy, Clone, Debug, Default)]
pub struct Doorbell(pub u32);

impl Doorbell {
    /// Returns the Doorbell Target field.
    pub fn doorbell_target(&self) -> (r: u8)
        ensures
            r == bits::field32(self.0, 0, 8),
    {
        bits::get_field32(self.0, 0, 8) as u8
    }

    /// Sets the Doorbell Target field.
    pub fn set_doorbell_target(&mut self, v: u8)
        ensures
            final(self).0 == bits::with_field32(old(self).0, v as u32, 0, 8),
    {
        self.0 = bits::set_field32(self.0, v as u32, 0, 8);
    }

    /// Returns the Doorbell Stream ID field.
    pub fn doorbell_stream_id(&self) -> (r: u16)
        ensures
            r == bits::field32(self.0, 16, 16),
    {
        bits::get_field32(self.0, 16, 16) as u16
    }

    /// Sets the Doorbell Stream ID field.
    pub fn set_doorbell_stream_id(&mut self, v: u16)
        ensures
            final(self).0 == bits::with_field32(old(self).0, v as u32, 16, 16),
    {
        self.0 = bits::set_field32(self.0, v as u32, 16, 16);
    }
}

} // verus!
