use w5500::bus::{ActiveBus, ActiveFourWire, ActiveThreeWire, FourWire, RecordingBus, ThreeWire};
use w5500::device::Device;
use w5500::network::Network;
use w5500::register;

struct HostNetwork {
    tag: u32,
}

impl Network for HostNetwork {}

/// A transport made recognizable by a frame only this test writes.
fn marked_transport(marker: u8) -> RecordingBus {
    let mut transport = RecordingBus::new();
    transport.write_frame(marker, 0x00FF, &[marker]).unwrap();
    transport
}

#[test]
fn four_wire_deactivate_returns_the_exact_transport() {
    let active = FourWire::new(9u8).activate(marked_transport(0x51));
    let device = Device::new(active, HostNetwork { tag: 11 });
    let (inactive_device, transport) = device.deactivate();
    let written = transport.written();
    assert_eq!(written.len(), 1);
    assert_eq!(written[0].block, 0x51);
    let (wiring, network) = inactive_device.release();
    assert_eq!(wiring.release(), 9u8);
    assert_eq!(network.tag, 11);
}

#[test]
fn three_wire_deactivate_returns_the_exact_transport() {
    let active = ThreeWire::new().activate(marked_transport(0x52));
    let device = Device::new(active, HostNetwork { tag: 12 });
    let (inactive_device, transport) = device.deactivate();
    let written = transport.written();
    assert_eq!(written.len(), 1);
    assert_eq!(written[0].block, 0x52);
    let (_, network) = inactive_device.release();
    assert_eq!(network.tag, 12);
}

#[test]
fn wiring_activate_deactivate_roundtrip() {
    let active = FourWire::new(5u8).activate(marked_transport(0x53));
    let (wiring, transport) = active.deactivate();
    assert_eq!(wiring.release(), 5u8);
    assert_eq!(transport.written()[0].block, 0x53);

    let active = ActiveFourWire::new(marked_transport(0x54), 6u8);
    let (wiring, transport) = active.deactivate();
    assert_eq!(wiring.release(), 6u8);
    assert_eq!(transport.written()[0].block, 0x54);

    let active = ActiveThreeWire::new(marked_transport(0x55));
    let (_, transport) = active.deactivate();
    assert_eq!(transport.written()[0].block, 0x55);
}

#[test]
fn reset_through_four_wire_reaches_the_transport() {
    let active = FourWire::new(1u8).activate(RecordingBus::new());
    let device = Device::new(active, HostNetwork { tag: 13 });
    let uninitialized = device.reset().ok().unwrap();
    let (_, transport) = uninitialized.release().deactivate();
    let written = transport.written();
    assert_eq!(written.len(), 1);
    assert_eq!(written[0].block, register::COMMON);
    assert_eq!(written[0].address, register::common::MODE);
    assert_eq!(written[0].data, vec![0b1000_0000u8]);
}

#[test]
fn reset_through_three_wire_reaches_the_transport() {
    let active = ThreeWire::new().activate(RecordingBus::new());
    let device = Device::new(active, HostNetwork { tag: 14 });
    let uninitialized = device.reset().ok().unwrap();
    let (_, transport) = uninitialized.release().deactivate();
    let written = transport.written();
    assert_eq!(written.len(), 1);
    assert_eq!(written[0].block, register::COMMON);
    assert_eq!(written[0].data, vec![0b1000_0000u8]);
}
