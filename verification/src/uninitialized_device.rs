//! The pre-initialization lifecycle state.

use vstd::prelude::*;

verus! {

/// A device that has been soft-reset and not yet initialized: it owns
/// the bus and nothing else. A successful `Device::reset` yields this
/// state.
pub struct UninitializedDevice<SpiBus> {
    bus: SpiBus,
}

impl<SpiBus> UninitializedDevice<SpiBus> {
    /// The bus the device owns.
    pub closed spec fn spec_bus(&self) -> SpiBus {
        self.bus
    }

    pub fn new(bus: SpiBus) -> (device: UninitializedDevice<SpiBus>)
        ensures
            device.spec_bus() == bus,
    {
        UninitializedDevice { bus }
    }

    /// Abandons the state and hands the owned bus back verbatim.
    pub fn release(self) -> (bus: SpiBus)
        ensures
            bus == self.spec_bus(),
    {
        self.bus
    }
}

} // verus!
