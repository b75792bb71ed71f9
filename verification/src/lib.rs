//! Driver core for a discrete Ethernet controller chip reached over a
//! serial peripheral bus.
//!
//! The crate verifies the two parts of such a driver that carry real
//! invariants: the device lifecycle state machine (uninitialized, active,
//! inactive, released) and the exclusive allocator for the chip's fixed
//! pool of eight on-chip sockets. The raw serial transport, the register
//! map beyond the soft-reset address, and the application-level facade are
//! external collaborators, consumed only through narrow capability
//! interfaces.

pub mod bus;
pub mod device;
pub mod inactive_device;
pub mod interface;
pub mod network;
pub mod register;
pub mod socket;
pub mod uninitialized_device;
