use w5500::bus::ActiveBus;
use w5500::device::{Device, ResetError};
use w5500::network::Network;

struct HostNetwork;

impl Network for HostNetwork {}

/// A transport that refuses every frame with a fixed error code.
struct FailingBus;

impl ActiveBus for FailingBus {
    type Error = u8;

    // The frame history is specification-only state; it is never asked
    // for at run time.
    fn frames(&self) -> vstd::seq::Seq<w5500::bus::Frame> {
        panic!()
    }

    fn write_frame(&mut self, _block: u8, _address: u16, _data: &[u8]) -> Result<(), u8> {
        Err(0xEE)
    }
}

#[test]
fn reset_propagates_the_transport_error() {
    let device = Device::new(FailingBus, HostNetwork);
    match device.reset() {
        Err(ResetError::Other(code)) => assert_eq!(code, 0xEE),
        _ => panic!("a failing transport must surface as the transport-error variant"),
    }
}

#[test]
fn socket_state_does_not_gate_the_transport_error() {
    let mut device = Device::new(FailingBus, HostNetwork);
    let socket = device.take_socket().unwrap();
    device.release_socket(socket);
    assert!(matches!(device.reset(), Err(ResetError::Other(0xEE))));
}
