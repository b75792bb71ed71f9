use w5500::bus::RecordingBus;
use w5500::device::Device;
use w5500::network::Network;
use w5500::socket::Socket;

struct HostNetwork;

impl Network for HostNetwork {}

fn fresh_device() -> Device<RecordingBus, HostNetwork> {
    Device::new(RecordingBus::new(), HostNetwork)
}

#[test]
fn take_all_eight_then_none() {
    let mut device = fresh_device();
    let mut previous: Option<u8> = None;
    for expected in 0u8..8 {
        let socket = device.take_socket().expect("a free slot was available");
        let index = socket.index();
        assert_eq!(index, expected);
        if let Some(p) = previous {
            assert!(p < index);
        }
        previous = Some(index);
    }
    assert!(device.take_socket().is_none());
    assert!(device.take_socket().is_none());
}

#[test]
fn take_then_release_restores_state() {
    let mut device = fresh_device();
    let socket = device.take_socket().expect("a free slot was available");
    assert_eq!(socket.index(), 0);
    device.release_socket(socket);
    let again = device.take_socket().expect("a free slot was available");
    assert_eq!(again.index(), 0);
}

#[test]
fn take_then_release_restores_state_mid_sequence() {
    let mut device = fresh_device();
    let first = device.take_socket().unwrap();
    let second = device.take_socket().unwrap();
    assert_eq!(first.index(), 0);
    assert_eq!(second.index(), 1);
    let third = device.take_socket().unwrap();
    assert_eq!(third.index(), 2);
    device.release_socket(third);
    let again = device.take_socket().unwrap();
    assert_eq!(again.index(), 2);
}

#[test]
fn lowest_free_index_wins() {
    let mut device = fresh_device();
    let first = device.take_socket().unwrap();
    let second = device.take_socket().unwrap();
    let third = device.take_socket().unwrap();
    assert_eq!(second.index(), 1);
    device.release_socket(second);
    let reissued = device.take_socket().unwrap();
    assert_eq!(reissued.index(), 1);
    let next = device.take_socket().unwrap();
    assert_eq!(next.index(), 3);
    let _ = (first, third);
}

#[test]
fn released_slots_become_available_again() {
    let mut device = fresh_device();
    let mut sockets = Vec::new();
    for _ in 0..8 {
        sockets.push(device.take_socket().unwrap());
    }
    assert!(device.take_socket().is_none());
    for socket in sockets {
        device.release_socket(socket);
    }
    let socket = device.take_socket().expect("all slots were released");
    assert_eq!(socket.index(), 0);
}

#[test]
fn socket_handle_carries_its_index() {
    let socket = Socket::new(5);
    assert_eq!(socket.index(), 5);
    let socket = Socket::new(7);
    assert_eq!(socket.index(), 7);
}
