//! Handles to the chip's hardware sockets.

use vstd::prelude::*;

verus! {

/// An exclusively owned handle to one of the chip's eight hardware
/// socket slots.
///
/// A handle is issued by `Device::take_socket`, which transfers ownership
/// of the slot to the caller, and is given back by value to
/// `Device::release_socket`. It carries nothing but the slot index.
pub struct Socket {
    index: u8,
}

impl Socket {
    /// Every handle designates one of the eight slots.
    #[verifier::type_invariant]
    spec fn index_in_range(self) -> bool {
        self.index < 8
    }

    /// The slot index the handle designates.
    pub closed spec fn spec_index(&self) -> u8 {
        self.index
    }

    pub fn new(index: u8) -> (socket: Socket)
        requires
            index < 8,
        ensures
            socket.spec_index() == index,
    {
        Socket { index }
    }

    /// The slot index the handle designates.
    pub fn index(&self) -> (index: u8)
        ensures
            index == self.spec_index(),
            index < 8,
    {
        proof {
            use_type_invariant(&*self);
        }
        self.index
    }
}

} // verus!
