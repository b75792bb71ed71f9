//! The network configuration capability.

use vstd::prelude::*;

verus! {

/// Capability supplying the chip's higher-level network configuration.
///
/// The device core never inspects the capability: it takes exclusive
/// ownership of one on construction and hands it back verbatim on
/// `release`. What configuration it carries is the implementor's
/// business and outside the scope of this crate.
pub trait Network {
}

} // verus!
