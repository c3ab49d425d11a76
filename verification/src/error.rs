//! The failure taxonomy the library surfaces.

use vstd::prelude::*;

verus! {

/// A failure kind. Failures are programmer errors: they are returned
/// immediately at the call site, without cleanup, retry or logging.
#[derive(Clone, Copy, Debug, PartialEq, Eq, Structural)]
pub enum Error {
    /// Decoding an enum-typed field found a reserved bit pattern.
    ReservedValue,
    /// A Device Context Index of 0 or above 31 was passed to an endpoint accessor.
    DciOutOfRange,
    /// An Input Control drop-context flag index of 0 or 1.
    DropFlagIndexReserved,
    /// An Input Control add-context flag index above 31.
    AddFlagIndexOutOfRange,
    /// A Device Notification index of 16 or above.
    NotificationIndexOutOfRange,
    /// An address did not meet the field's alignment requirement.
    Misaligned,
    /// A TRB whose type is not valid on that ring was pushed.
    InvalidTrbType,
    /// A push or pop on a ring that has no segments.
    Uninitialized,
    /// Too many segments in an Event Ring, or a segment above the size limit.
    SegmentLimitExceeded,
    /// The MMIO base address was null.
    NullMmioBase,
}

} // verus!
