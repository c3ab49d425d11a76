//! Core of an xHCI (eXtensible Host Controller Interface) access library.
//!
//! The crate models the controller's register file and the DMA-resident data
//! structures an xHCI driver manipulates: bit-exact register and context
//! types, the extended-capability list, and the Command/Transfer/Event ring
//! subsystem with its cycle-bit protocol.


pub mod bits;
pub mod error;
pub mod capability;
pub mod operational;
pub mod runtime;
pub mod doorbell;
pub mod context;
pub mod trb;
pub mod ring;
pub mod registers;
pub mod extended_capabilities;
