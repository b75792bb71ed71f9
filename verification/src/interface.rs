//! Conversion into the application-level facade.

use vstd::prelude::*;

use crate::bus::ActiveBus;
use crate::device::Device;
use crate::network::Network;

verus! {

/// The application-level facade over a live device.
///
/// The I/O the facade offers is an external collaborator and outside the
/// scope of this crate; the facade here only takes over the device whole,
/// so that the conversion in `Device::into_interface` is a one-shot
/// ownership transfer like every other lifecycle transition.
pub struct Interface<SpiBus: ActiveBus, NetworkImpl: Network> {
    device: Device<SpiBus, NetworkImpl>,
}

impl<SpiBus: ActiveBus, NetworkImpl: Network> Interface<SpiBus, NetworkImpl> {
    /// The device the facade owns.
    pub closed spec fn spec_device(&self) -> Device<SpiBus, NetworkImpl> {
        self.device
    }

    pub fn new(device: Device<SpiBus, NetworkImpl>) -> (interface: Interface<SpiBus, NetworkImpl>)
        ensures
            interface.spec_device() == device,
    {
        Interface { device }
    }

    /// Hands the device back out of the facade verbatim.
    pub fn release(self) -> (device: Device<SpiBus, NetworkImpl>)
        ensures
            device == self.spec_device(),
    {
        self.device
    }
}

} // verus!
