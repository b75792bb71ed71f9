//! The suspended lifecycle state.

use vstd::prelude::*;

verus! {

/// A device after deactivation: it owns the inactive wiring form of its
/// bus and the network capability. `Device::deactivate` yields this
/// state together with the raw transport.
pub struct InactiveDevice<InactiveBus, NetworkImpl> {
    bus: InactiveBus,
    network: NetworkImpl,
}

impl<InactiveBus, NetworkImpl> InactiveDevice<InactiveBus, NetworkImpl> {
    /// The inactive wiring form the device owns.
    pub closed spec fn spec_bus(&self) -> InactiveBus {
        self.bus
    }

    /// The network capability the device owns.
    pub closed spec fn spec_network(&self) -> NetworkImpl {
        self.network
    }

    pub fn new(bus: InactiveBus, network: NetworkImpl) -> (device: InactiveDevice<
        InactiveBus,
        NetworkImpl,
    >)
        ensures
            device.spec_bus() == bus,
            device.spec_network() == network,
    {
        InactiveDevice { bus, network }
    }

    /// Abandons the state and hands both owned components back verbatim.
    pub fn release(self) -> (parts: (InactiveBus, NetworkImpl))
        ensures
            parts.0 == self.spec_bus(),
            parts.1 == self.spec_network(),
    {
        (self.bus, self.network)
    }
}

} // verus!
