use socks5_proxy::protocol::{Address, UDPAssociateHeader};
use socks5_proxy::error::SocksError;
use socks5_proxy::udp::{DropReason, IpAddress, RelayAction, RelayEvent, SocketAddress, UDPRelay};

const CLIENT_IP: [u8; 4] = [10, 0, 0, 7];

fn client(port: u16) -> SocketAddress {
    SocketAddress { ip: IpAddress::V4(CLIENT_IP), port }
}

fn datagram_to(addr: [u8; 4], port: u16, payload: &[u8]) -> Vec<u8> {
    let mut buf = Vec::new();
    UDPAssociateHeader { frag: 0, address: Address::IpV4(addr), port }.write(&mut buf);
    buf.extend_from_slice(payload);
    buf
}

#[test]
fn first_client_datagram_locks_endpoint() {
    let mut relay = UDPRelay::new(IpAddress::V4(CLIENT_IP));
    assert!(relay.client_addr().is_none());
    assert!(relay.is_from_client(&client(4000)));
    assert!(relay.is_from_client(&client(4001)));
    let pkt = datagram_to([1, 1, 1, 1], 53, b"query");
    match relay.on_event(&RelayEvent::Received(client(4000)), &pkt) {
        RelayAction::Send { dest, port, data } => {
            assert_eq!(dest, Address::IpV4([1, 1, 1, 1]));
            assert_eq!(port, 53);
            assert_eq!(data, b"query".to_vec());
        }
        other => panic!("unexpected {:?}", other),
    }
    assert_eq!(relay.client_addr(), Some(client(4000)));
    assert!(relay.is_from_client(&client(4000)));
    assert!(!relay.is_from_client(&client(4001)));
}

#[test]
fn locked_session_rejects_other_port() {
    let mut relay = UDPRelay::new(IpAddress::V4(CLIENT_IP));
    let pkt = datagram_to([1, 1, 1, 1], 53, b"x");
    relay.on_event(&RelayEvent::Received(client(4000)), &pkt);
    // a datagram from the same IP on another port is relayed back to the client
    match relay.on_event(&RelayEvent::Received(client(5000)), b"raw") {
        RelayAction::Send { dest, port, data } => {
            assert_eq!(dest, Address::IpV4(CLIENT_IP));
            assert_eq!(port, 4000);
            assert_eq!(data, vec![0, 0, 0, 0x01, 10, 0, 0, 7, 0x13, 0x88, b'r', b'a', b'w']);
        }
        other => panic!("unexpected {:?}", other),
    }
    assert_eq!(relay.client_addr(), Some(client(4000)));
}

#[test]
fn other_source_before_lock_is_dropped() {
    let mut relay = UDPRelay::new(IpAddress::V4(CLIENT_IP));
    let stranger = SocketAddress { ip: IpAddress::V4([9, 9, 9, 9]), port: 53 };
    assert!(!relay.is_from_client(&stranger));
    assert!(matches!(
        relay.on_event(&RelayEvent::Received(stranger), b"reply"),
        RelayAction::Drop(DropReason::NoClient)
    ));
    assert!(relay.client_addr().is_none());
}

#[test]
fn target_reply_is_wrapped_for_client() {
    let mut relay = UDPRelay::new(IpAddress::V4(CLIENT_IP));
    relay.on_event(&RelayEvent::Received(client(4000)), &datagram_to([8, 8, 8, 8], 53, b"q"));
    let target = SocketAddress { ip: IpAddress::V4([8, 8, 8, 8]), port: 53 };
    match relay.on_event(&RelayEvent::Received(target), b"answer") {
        RelayAction::Send { dest, port, data } => {
            assert_eq!(dest, Address::IpV4(CLIENT_IP));
            assert_eq!(port, 4000);
            let (h, n) = UDPAssociateHeader::parse(&data).unwrap();
            assert_eq!(h.address, Address::IpV4([8, 8, 8, 8]));
            assert_eq!(h.port, 53);
            assert_eq!(h.frag, 0);
            assert_eq!(&data[n..], b"answer");
        }
        other => panic!("unexpected {:?}", other),
    }
}

#[test]
fn fragmented_or_malformed_client_datagram_is_dropped() {
    let mut relay = UDPRelay::new(IpAddress::V4(CLIENT_IP));
    let frag = vec![0, 0, 1, 0x01, 1, 1, 1, 1, 0, 53, b'x'];
    assert!(matches!(
        relay.on_event(&RelayEvent::Received(client(4000)), &frag),
        RelayAction::Drop(DropReason::Fragmented(1))
    ));
    // the endpoint is locked even so
    assert_eq!(relay.client_addr(), Some(client(4000)));
    assert!(matches!(
        relay.on_event(&RelayEvent::Received(client(4000)), &[1, 2]),
        RelayAction::Drop(DropReason::Malformed(SocksError::MalformedUdpDatagram))
    ));
}

#[test]
fn idle_timeout_stops_relay() {
    let mut relay = UDPRelay::new(IpAddress::V4(CLIENT_IP));
    assert!(matches!(relay.on_event(&RelayEvent::IdleTimeout, &[]), RelayAction::Stop));
    assert!(relay.client_addr().is_none());
}

#[test]
fn receive_failure_ends_session() {
    let mut relay = UDPRelay::new(IpAddress::V4(CLIENT_IP));
    assert!(matches!(
        relay.on_event(&RelayEvent::ReceiveFailed, &[]),
        RelayAction::Fail(SocksError::UdpRelayIoFailure)
    ));
}

#[test]
fn client_datagram_with_unknown_address_type_is_dropped() {
    let mut relay = UDPRelay::new(IpAddress::V4(CLIENT_IP));
    let pkt = vec![0, 0, 0, 0x09, 1, 2, 3, 4, 0, 53];
    assert!(matches!(
        relay.on_event(&RelayEvent::Received(client(4000)), &pkt),
        RelayAction::Drop(DropReason::Malformed(SocksError::UnsupportedAddressType))
    ));
}

#[test]
fn ipv6_client_is_matched_by_address() {
    let mut ip = [0u8; 16];
    ip[15] = 1;
    let relay = UDPRelay::new(IpAddress::V6(ip));
    assert!(relay.is_from_client(&SocketAddress { ip: IpAddress::V6(ip), port: 1 }));
    assert!(!relay.is_from_client(&SocketAddress { ip: IpAddress::V4([0, 0, 0, 1]), port: 1 }));
}
