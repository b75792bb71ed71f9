//! The chip's wire-protocol addresses used by this crate.
//!
//! A frame on the bus names a register block and an address within it.
//! The values here must remain bit-exact with the target hardware's
//! register map.

use vstd::prelude::*;

pub mod common;

verus! {

/// Block-select value of the common (non-socket-specific) register block.
pub const COMMON: u8 = 0b0000_0000;

} // verus!
