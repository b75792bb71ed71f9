//! The device lifecycle state machine and the socket allocator.
//!
//! A [`Device`] pairs an active bus with a network capability and tracks
//! which of the chip's eight socket slots are free. Every lifecycle
//! transition consumes the device: a value of a predecessor state can
//! never be retained after a transition.

use vstd::prelude::*;

use crate::bus::{ActiveBus, ActiveFourWire, ActiveThreeWire, FourWire, Frame, ThreeWire};
use crate::inactive_device::InactiveDevice;
use crate::interface::Interface;
use crate::network::Network;
use crate::register;
use crate::socket::Socket;
use crate::uninitialized_device::UninitializedDevice;

verus! {

/// The occupancy mask with every socket slot free: one bit per slot,
/// a set bit meaning free.
pub const SOCKETS_ALL_FREE: u8 = 0b1111_1111;

/// The soft-reset command byte: bit 7 set, the remaining bits reserved
/// and zero.
pub const RESET_COMMAND: u8 = 0b1000_0000;

/// Whether slot `index` is free under occupancy mask `mask`.
pub open spec fn slot_free(mask: u8, index: u8) -> bool {
    index < 8 && mask & (1u8 << index) != 0
}

/// `mask` with slot `index` marked taken.
pub open spec fn take_slot(mask: u8, index: u8) -> u8 {
    mask & !(1u8 << index)
}

/// `mask` with slot `index` marked free.
pub open spec fn free_slot(mask: u8, index: u8) -> u8 {
    mask | (1u8 << index)
}

/// How many of the eight slots are free under `mask`.
pub open spec fn free_slot_count(mask: u8) -> int {
    ((mask >> 0u8) & 1) + ((mask >> 1u8) & 1) + ((mask >> 2u8) & 1) + ((mask >> 3u8) & 1) + ((mask
        >> 4u8) & 1) + ((mask >> 5u8) & 1) + ((mask >> 6u8) & 1) + ((mask >> 7u8) & 1)
}

/// The one frame a successful reset writes: the soft-reset command sent
/// to the mode register of the common block.
pub open spec fn reset_frame() -> Frame {
    Frame { block: register::COMMON, address: register::common::MODE, data: seq![RESET_COMMAND] }
}

/// Outcome of a failed `Device::reset`.
pub enum ResetError<E> {
    /// The precondition was violated: sockets were still held, so the
    /// chip must not be reset.
    SocketsNotReleased,
    /// The transport failed; carries the bus error unchanged.
    Other(E),
}

impl<E> From<E> for ResetError<E> {
    fn from(error: E) -> (result: ResetError<E>) {
        ResetError::Other(error)
    }
}

impl<E> vstd::std_specs::convert::FromSpecImpl<E> for ResetError<E> {
    open spec fn obeys_from_spec() -> bool {
        true
    }

    open spec fn from_spec(error: E) -> ResetError<E> {
        ResetError::Other(error)
    }
}

/// A live device: exclusive owner of one active bus and one network
/// capability, tracking the occupancy of the chip's eight socket slots.
pub struct Device<SpiBus: ActiveBus, NetworkImpl: Network> {
    pub bus: SpiBus,
    network: NetworkImpl,
    sockets: u8,
}

impl<SpiBus: ActiveBus, NetworkImpl: Network> Device<SpiBus, NetworkImpl> {
    /// The bus the device owns.
    pub closed spec fn spec_bus(&self) -> SpiBus {
        self.bus
    }

    /// The network capability the device owns.
    pub closed spec fn spec_network(&self) -> NetworkImpl {
        self.network
    }

    /// The socket occupancy mask: one bit per slot, a set bit meaning
    /// free.
    pub closed spec fn spec_sockets(&self) -> u8 {
        self.sockets
    }

    /// Pairs an already-active bus with a network capability. The new
    /// device starts with every socket slot free.
    pub fn new(bus: SpiBus, network: NetworkImpl) -> (device: Device<SpiBus, NetworkImpl>)
        ensures
            device.spec_bus() == bus,
            device.spec_network() == network,
            device.spec_sockets() == SOCKETS_ALL_FREE,
    {
        Device { bus, network, sockets: SOCKETS_ALL_FREE }
    }

    /// Soft-resets the chip and yields the uninitialized state.
    ///
    /// The transition is permitted only once every socket has been
    /// returned: with any slot still taken it fails with
    /// `SocketsNotReleased` and writes nothing. Otherwise it issues the
    /// single reset frame; a transport failure is propagated unchanged
    /// as `Other`. The device is consumed either way.
    pub fn reset(self) -> (result: Result<UninitializedDevice<SpiBus>, ResetError<SpiBus::Error>>)
        ensures
            result matches Ok(uninitialized) ==> {
                &&& self.spec_sockets() == SOCKETS_ALL_FREE
                &&& uninitialized.spec_bus().frames() == self.spec_bus().frames().push(reset_frame())
            },
            result matches Err(ResetError::SocketsNotReleased) <==> self.spec_sockets()
                != SOCKETS_ALL_FREE,
            result matches Err(ResetError::Other(_)) ==> self.spec_sockets() == SOCKETS_ALL_FREE,
    {
        if self.sockets != SOCKETS_ALL_FREE {
            Err(ResetError::SocketsNotReleased)
        } else {
            let mut device = self;
            match device.clear_mode() {
                Ok(()) => Ok(UninitializedDevice::new(device.bus)),
                Err(error) => Err(ResetError::Other(error)),
            }
        }
    }

    /// Writes the soft-reset command to the chip's mode register.
    fn clear_mode(&mut self) -> (result: Result<(), SpiBus::Error>)
        ensures
            final(self).spec_network() == old(self).spec_network(),
            final(self).spec_sockets() == old(self).spec_sockets(),
            result is Ok ==> final(self).spec_bus().frames() == old(self).spec_bus().frames().push(reset_frame()),
            result is Err ==> final(self).spec_bus().frames() == old(self).spec_bus().frames(),
    {
        let mut mode: Vec<u8> = Vec::new();
        mode.push(RESET_COMMAND);
        proof {
            assert(mode@ =~= seq![RESET_COMMAND]);
        }
        self.bus.write_frame(register::COMMON, register::common::MODE, mode.as_slice())
    }

    /// Allocates the free socket slot with the lowest index, transfers
    /// ownership of it to the caller, and marks it taken. Yields nothing
    /// exactly when no slot is free; that is an expected condition, not
    /// an error.
    pub fn take_socket(&mut self) -> (taken: Option<Socket>)
        ensures
            final(self).spec_bus() == old(self).spec_bus(),
            final(self).spec_network() == old(self).spec_network(),
            taken is None <==> old(self).spec_sockets() == 0,
            taken is None ==> final(self).spec_sockets() == old(self).spec_sockets(),
            taken matches Some(socket) ==> {
                &&& slot_free(old(self).spec_sockets(), socket.spec_index())
                &&& forall|lower: u8|
                    lower < socket.spec_index() ==> !slot_free(old(self).spec_sockets(), lower)
                &&& final(self).spec_sockets() == take_slot(
                    old(self).spec_sockets(),
                    socket.spec_index(),
                )
            },
    {
        let mut index: u8 = 0;
        while index < 8
            invariant
                index <= 8,
                *self == *old(self),
                forall|lower: u8| lower < index ==> !slot_free(self.sockets, lower),
            decreases 8 - index,
        {
            if self.sockets & (1u8 << index) != 0 {
                proof {
                    let mask = self.sockets;
                    assert(mask != 0) by (bit_vector)
                        requires
                            mask & (1u8 << index) != 0,
                    ;
                }
                self.sockets = self.sockets & !(1u8 << index);
                return Some(Socket::new(index));
            }
            index += 1;
        }
        proof {
            lemma_no_free_slot_means_none_left(self.sockets);
        }
        None
    }

    /// Marks the slot of a previously issued handle free again, consuming
    /// the handle. The allocator trusts the caller to return only handles
    /// this device issued: there is no double-release detection.
    pub fn release_socket(&mut self, socket: Socket)
        ensures
            final(self).spec_bus() == old(self).spec_bus(),
            final(self).spec_network() == old(self).spec_network(),
            final(self).spec_sockets() == free_slot(old(self).spec_sockets(), socket.spec_index()),
    {
        let index = socket.index();
        self.sockets = self.sockets | (1u8 << index);
    }

    /// Converts the device into the application-level facade, consuming
    /// it.
    pub fn into_interface(self) -> (interface: Interface<SpiBus, NetworkImpl>)
        ensures
            interface.spec_device() == self,
    {
        Interface::new(self)
    }

    /// Dissolves the device and returns both owned components verbatim.
    /// Unconditional and side-effect free.
    pub fn release(self) -> (parts: (SpiBus, NetworkImpl))
        ensures
            parts.0 == self.spec_bus(),
            parts.1 == self.spec_network(),
    {
        (self.bus, self.network)
    }
}

impl<Spi: ActiveBus, ChipSelect, NetworkImpl: Network> Device<
    ActiveFourWire<Spi, ChipSelect>,
    NetworkImpl,
> {
    /// Suspends the device: releases the bus to its inactive four-wire
    /// form, which keeps the chip-select line, and returns the exact raw
    /// transport the bus was activated with. Unconditional; the socket
    /// occupancy is discarded with the active state.
    pub fn deactivate(self) -> (parts: (
        InactiveDevice<FourWire<ChipSelect>, NetworkImpl>,
        Spi,
    ))
        ensures
            parts.0.spec_bus().spec_cs() == self.spec_bus().spec_cs(),
            parts.0.spec_network() == self.spec_network(),
            parts.1 == self.spec_bus().spec_spi(),
    {
        let Device { bus, network, sockets: _ } = self;
        let (inactive, spi) = bus.deactivate();
        (InactiveDevice::new(inactive, network), spi)
    }
}

impl<Spi: ActiveBus, NetworkImpl: Network> Device<ActiveThreeWire<Spi>, NetworkImpl> {
    /// Suspends the device: releases the bus to its inactive three-wire
    /// form and returns the exact raw transport the bus was activated
    /// with. Unconditional; the socket occupancy is discarded with the
    /// active state.
    pub fn deactivate(self) -> (parts: (InactiveDevice<ThreeWire, NetworkImpl>, Spi))
        ensures
            parts.0.spec_network() == self.spec_network(),
            parts.1 == self.spec_bus().spec_spi(),
    {
        let Device { bus, network, sockets: _ } = self;
        let (inactive, spi) = bus.deactivate();
        (InactiveDevice::new(inactive, network), spi)
    }
}

/// With no interleaved release, successive allocations return strictly
/// increasing (hence unique) slot indices: when `take_socket` issues the
/// slot `first` under mask `mask` and the very next call issues `second`,
/// then `second` lies strictly above `first`.
pub proof fn lemma_takes_strictly_increase(mask: u8, first: u8, second: u8)
    requires
        slot_free(mask, first),
        forall|lower: u8| lower < first ==> !slot_free(mask, lower),
        slot_free(take_slot(mask, first), second),
        forall|lower: u8| lower < second ==> !slot_free(take_slot(mask, first), lower),
    ensures
        first < second,
{
    let cleared = take_slot(mask, first);
    assert(cleared & (1u8 << first) == 0) by (bit_vector)
        requires
            cleared == mask & !(1u8 << first),
    ;
    assert(second != first);
    if second < first {
        assert(mask & (1u8 << second) != 0) by (bit_vector)
            requires
                cleared == mask & !(1u8 << first) && cleared & (1u8 << second) != 0,
        ;
        assert(slot_free(mask, second));
        assert(false);
    }
}

/// Allocating a slot and immediately releasing the same slot restores
/// the occupancy mask exactly.
pub proof fn lemma_take_then_release_restores(mask: u8, index: u8)
    requires
        slot_free(mask, index),
    ensures
        free_slot(take_slot(mask, index), index) == mask,
{
    assert((mask & !(1u8 << index)) | (1u8 << index) == mask) by (bit_vector)
        requires
            index < 8 && mask & (1u8 << index) != 0,
    ;
}

/// Allocating a slot leaves exactly one fewer slot free.
pub proof fn lemma_take_decreases_free_slots(mask: u8, index: u8)
    requires
        slot_free(mask, index),
    ensures
        free_slot_count(take_slot(mask, index)) == free_slot_count(mask) - 1,
{
    assert(free_slot_count(mask & !(1u8 << index)) == free_slot_count(mask) - 1) by (bit_vector)
        requires
            index < 8 && mask & (1u8 << index) != 0,
    ;
}

/// No slot is free exactly under the all-taken mask; with the contract
/// of `take_socket` this is why, once the last free slot is gone, the
/// next call returns no handle.
pub proof fn lemma_no_free_slots_iff_all_taken(mask: u8)
    ensures
        free_slot_count(mask) == 0 <==> mask == 0,
{
    assert(free_slot_count(mask) == 0 <==> mask == 0) by (bit_vector);
}

/// Under the fully-free occupancy mask, the one a fresh device starts
/// with, every one of the eight slots is free. Together with
/// `lemma_take_decreases_free_slots` and `lemma_no_free_slots_iff_all_taken`:
/// eight allocations with no interleaved release exhaust the pool, and
/// the call immediately after returns no handle.
pub proof fn lemma_fully_free_mask()
    ensures
        free_slot_count(SOCKETS_ALL_FREE) == 8,
        forall|index: u8| index < 8 ==> slot_free(SOCKETS_ALL_FREE, index),
{
    assert(free_slot_count(0b1111_1111u8) == 8) by (bit_vector);
    assert forall|index: u8| index < 8 implies slot_free(SOCKETS_ALL_FREE, index) by {
        assert(0b1111_1111u8 & (1u8 << index) != 0) by (bit_vector)
            requires
                index < 8,
        ;
    }
}

/// A mask under which no slot is free is the all-taken mask.
proof fn lemma_no_free_slot_means_none_left(mask: u8)
    requires
        forall|index: u8| index < 8 ==> !slot_free(mask, index),
    ensures
        mask == 0,
{
    assert(!slot_free(mask, 0));
    assert(!slot_free(mask, 1));
    assert(!slot_free(mask, 2));
    assert(!slot_free(mask, 3));
    assert(!slot_free(mask, 4));
    assert(!slot_free(mask, 5));
    assert(!slot_free(mask, 6));
    assert(!slot_free(mask, 7));
    assert(mask == 0) by (bit_vector)
        requires
            mask & (1u8 << 0u8) == 0,
            mask & (1u8 << 1u8) == 0,
            mask & (1u8 << 2u8) == 0,
            mask & (1u8 << 3u8) == 0,
            mask & (1u8 << 4u8) == 0,
            mask & (1u8 << 5u8) == 0,
            mask & (1u8 << 6u8) == 0,
            mask & (1u8 << 7u8) == 0,
    ;
}

} // verus!
