//! The bus capability and its wiring variants.
//!
//! An active bus is a communication channel holding exclusive access to
//! the physical transport, able to write addressed frames to the chip.
//! The raw serial framing that puts a frame on the wire is outside the
//! scope of this crate: it is consumed through the [`ActiveBus`]
//! capability. The two wiring variants (three-wire and four-wire) differ
//! only in whether a chip-select line is owned.

use vstd::prelude::*;

verus! {

/// One addressed frame as the chip sees it: a block-select value, a
/// register address within that block, and the payload bytes.
pub struct Frame {
    pub block: u8,
    pub address: u16,
    pub data: Seq<u8>,
}

/// Capability of an active communication channel to the chip.
///
/// The abstract state of a channel is the history of frames successfully
/// written on it: `write_frame` appends exactly one frame on success and
/// leaves the history unchanged when the transport fails. An
/// implementation over real hardware is answerable for this contract;
/// how a frame is serialized on the wire is outside the scope of this
/// crate.
pub trait ActiveBus: Sized {
    /// The transport's error, propagated unchanged to callers.
    type Error;

    /// The frames successfully written on this channel, oldest first.
    spec fn frames(&self) -> Seq<Frame>;

    /// Writes one addressed frame to the chip.
    fn write_frame(&mut self, block: u8, address: u16, data: &[u8]) -> (result: Result<
        (),
        Self::Error,
    >)
        ensures
            result is Ok ==> final(self).frames() == old(self).frames().push(
                (Frame { block, address, data: data@ }),
            ),
            result is Err ==> final(self).frames() == old(self).frames(),
    ;
}

/// Inactive three-wire wiring: no chip-select line is owned.
pub struct ThreeWire;

/// Inactive four-wire wiring: owns the chip-select line.
pub struct FourWire<ChipSelect> {
    cs: ChipSelect,
}

/// Active three-wire wiring: owns the raw duplex transport.
pub struct ActiveThreeWire<Spi> {
    spi: Spi,
}

/// Active four-wire wiring: owns the raw duplex transport and the
/// chip-select line.
pub struct ActiveFourWire<Spi, ChipSelect> {
    spi: Spi,
    cs: ChipSelect,
}

impl ThreeWire {
    pub fn new() -> ThreeWire {
        ThreeWire
    }

    /// Takes exclusive access to a raw transport, yielding the active form.
    pub fn activate<Spi>(self, spi: Spi) -> (active: ActiveThreeWire<Spi>)
        ensures
            active.spec_spi() == spi,
    {
        ActiveThreeWire { spi }
    }
}

impl<ChipSelect> FourWire<ChipSelect> {
    /// The chip-select line the wiring owns.
    pub closed spec fn spec_cs(&self) -> ChipSelect {
        self.cs
    }

    pub fn new(cs: ChipSelect) -> (wiring: FourWire<ChipSelect>)
        ensures
            wiring.spec_cs() == cs,
    {
        FourWire { cs }
    }

    /// Takes exclusive access to a raw transport, yielding the active form.
    pub fn activate<Spi>(self, spi: Spi) -> (active: ActiveFourWire<Spi, ChipSelect>)
        ensures
            active.spec_spi() == spi,
            active.spec_cs() == self.spec_cs(),
    {
        ActiveFourWire { spi, cs: self.cs }
    }

    /// Dissolves the wiring and hands the chip-select line back verbatim.
    pub fn release(self) -> (cs: ChipSelect)
        ensures
            cs == self.spec_cs(),
    {
        self.cs
    }
}

impl<Spi> ActiveThreeWire<Spi> {
    /// The raw duplex transport the wiring holds.
    pub closed spec fn spec_spi(&self) -> Spi {
        self.spi
    }

    pub fn new(spi: Spi) -> (active: ActiveThreeWire<Spi>)
        ensures
            active.spec_spi() == spi,
    {
        ActiveThreeWire { spi }
    }

    /// Releases the channel: returns the inactive wiring form and the
    /// exact raw transport it was activated with.
    pub fn deactivate(self) -> (parts: (ThreeWire, Spi))
        ensures
            parts.1 == self.spec_spi(),
    {
        (ThreeWire, self.spi)
    }
}

impl<Spi, ChipSelect> ActiveFourWire<Spi, ChipSelect> {
    /// The raw duplex transport the wiring holds.
    pub closed spec fn spec_spi(&self) -> Spi {
        self.spi
    }

    /// The chip-select line the wiring owns.
    pub closed spec fn spec_cs(&self) -> ChipSelect {
        self.cs
    }

    pub fn new(spi: Spi, cs: ChipSelect) -> (active: ActiveFourWire<Spi, ChipSelect>)
        ensures
            active.spec_spi() == spi,
            active.spec_cs() == cs,
    {
        ActiveFourWire { spi, cs }
    }

    /// Releases the channel: returns the inactive wiring form, which
    /// keeps the chip-select line, and the exact raw transport the
    /// wiring was activated with.
    pub fn deactivate(self) -> (parts: (FourWire<ChipSelect>, Spi))
        ensures
            parts.0.spec_cs() == self.spec_cs(),
            parts.1 == self.spec_spi(),
    {
        (FourWire { cs: self.cs }, self.spi)
    }
}

impl<Spi: ActiveBus, ChipSelect> ActiveBus for ActiveFourWire<Spi, ChipSelect> {
    type Error = Spi::Error;

    closed spec fn frames(&self) -> Seq<Frame> {
        self.spi.frames()
    }

    fn write_frame(&mut self, block: u8, address: u16, data: &[u8]) -> (result: Result<
        (),
        Self::Error,
    >) {
        self.spi.write_frame(block, address, data)
    }
}

impl<Spi: ActiveBus> ActiveBus for ActiveThreeWire<Spi> {
    type Error = Spi::Error;

    closed spec fn frames(&self) -> Seq<Frame> {
        self.spi.frames()
    }

    fn write_frame(&mut self, block: u8, address: u16, data: &[u8]) -> (result: Result<
        (),
        Self::Error,
    >) {
        self.spi.write_frame(block, address, data)
    }
}

/// One frame as kept by [`RecordingBus`], with the payload held as plain
/// bytes.
pub struct RecordedFrame {
    pub block: u8,
    pub address: u16,
    pub data: Vec<u8>,
}

impl View for RecordedFrame {
    type V = Frame;

    open spec fn view(&self) -> Frame {
        Frame { block: self.block, address: self.address, data: self.data@ }
    }
}

/// A bus that performs no I/O: it records every frame written on it and
/// never fails.
///
/// It lets host-side code observe exactly what a device put on the bus,
/// and serves as a raw transport for the wiring variants where no
/// hardware is present.
pub struct RecordingBus {
    written: Vec<RecordedFrame>,
}

impl RecordingBus {
    pub fn new() -> (bus: RecordingBus)
        ensures
            bus.frames() == Seq::<Frame>::empty(),
    {
        let bus = RecordingBus { written: Vec::new() };
        proof {
            assert(bus.written@.map_values(|recorded: RecordedFrame| recorded@) =~= Seq::<
                Frame,
            >::empty());
        }
        bus
    }

    /// The frames recorded so far, oldest first.
    pub fn written(&self) -> (written: &Vec<RecordedFrame>)
        ensures
            written@.map_values(|recorded: RecordedFrame| recorded@) == self.frames(),
    {
        &self.written
    }
}

impl ActiveBus for RecordingBus {
    type Error = ();

    closed spec fn frames(&self) -> Seq<Frame> {
        self.written@.map_values(|recorded: RecordedFrame| recorded@)
    }

    fn write_frame(&mut self, block: u8, address: u16, data: &[u8]) -> (result: Result<
        (),
        Self::Error,
    >) {
        let recorded = RecordedFrame { block, address, data: vstd::slice::slice_to_vec(data) };
        self.written.push(recorded);
        proof {
            assert(self.written@.map_values(|recorded: RecordedFrame| recorded@) =~= old(
                self,
            ).written@.map_values(|recorded: RecordedFrame| recorded@).push(
                (Frame { block, address, data: data@ }),
            ));
        }
        Ok(())
    }
}

} // verus!
