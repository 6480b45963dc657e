use socks5_proxy::error::SocksError;
use socks5_proxy::protocol::{Address, SocksRequest, UDPAssociateHeader};

fn round_trip(addr: Address) {
    let bytes = addr.encode();
    let (back, n) = Address::decode(&bytes, 0).unwrap();
    assert_eq!(n, bytes.len());
    assert_eq!(back, addr);
    assert_eq!(back.encode(), bytes);
}

#[test]
fn address_round_trip_ipv4() {
    let addr = Address::IpV4([192, 168, 1, 20]);
    assert_eq!(addr.encode(), vec![0x01, 192, 168, 1, 20]);
    round_trip(addr);
}

#[test]
fn address_round_trip_ipv6() {
    let mut ip = [0u8; 16];
    for (i, b) in ip.iter_mut().enumerate() {
        *b = (i as u8) * 17;
    }
    let addr = Address::IpV6(ip);
    let bytes = addr.encode();
    assert_eq!(bytes.len(), 17);
    assert_eq!(bytes[0], 0x04);
    round_trip(addr);
}

#[test]
fn address_round_trip_domain() {
    let addr = Address::Domain("example.com".to_string());
    let mut expected = vec![0x03, 11];
    expected.extend_from_slice(b"example.com");
    assert_eq!(addr.encode(), expected);
    round_trip(addr);
}

#[test]
fn address_round_trip_domain_edge_lengths() {
    round_trip(Address::Domain(String::new()));
    round_trip(Address::Domain("a".repeat(255)));
    // two bytes per character in UTF-8
    let wide = Address::Domain("é".repeat(10));
    assert_eq!(wide.encode()[1], 20);
    round_trip(wide);
}

#[test]
fn address_decode_from_bytes_then_encode() {
    let bytes = vec![0x03, 3, b'a', b'b', b'c', 0xAA, 0xBB];
    let (addr, n) = Address::decode(&bytes, 0).unwrap();
    assert_eq!(n, 5);
    assert_eq!(addr, Address::Domain("abc".to_string()));
    assert_eq!(addr.encode(), bytes[..5].to_vec());
}

#[test]
fn address_decode_at_offset() {
    let bytes = vec![9, 9, 0x01, 10, 0, 0, 1];
    let (addr, n) = Address::decode(&bytes, 2).unwrap();
    assert_eq!(n, 5);
    assert_eq!(addr, Address::IpV4([10, 0, 0, 1]));
}

#[test]
fn address_decode_errors() {
    assert_eq!(Address::decode(&[0x02, 1, 2, 3, 4], 0), Err(SocksError::UnsupportedAddressType));
    assert_eq!(Address::decode(&[0x03, 2, 0xFF, 0xFE], 0), Err(SocksError::MalformedDomain));
    assert_eq!(Address::decode(&[0x01, 1, 2], 0), Err(SocksError::Truncated));
    assert_eq!(Address::decode(&[0x03, 5, b'a'], 0), Err(SocksError::Truncated));
    assert_eq!(Address::decode(&[], 0), Err(SocksError::Truncated));
}

#[test]
fn udp_header_round_trip_with_payload() {
    let h = UDPAssociateHeader {
        frag: 0,
        address: Address::Domain("host.test".to_string()),
        port: 5353,
    };
    let mut buf = Vec::new();
    h.write(&mut buf);
    let header_len = buf.len();
    assert_eq!(&buf[..3], &[0, 0, 0]);
    assert_eq!(&buf[buf.len() - 2..], &[0x14, 0xE9]);
    buf.extend_from_slice(b"payload");
    let (parsed, n) = UDPAssociateHeader::parse(&buf).unwrap();
    assert_eq!(parsed, h);
    assert_eq!(n, header_len);
    assert_eq!(&buf[n..], b"payload");
}

#[test]
fn udp_header_ipv4_exact_bytes() {
    let h = UDPAssociateHeader { frag: 0, address: Address::IpV4([8, 8, 4, 4]), port: 53 };
    let mut buf = vec![0xEE];
    h.write(&mut buf);
    assert_eq!(buf, vec![0xEE, 0, 0, 0, 0x01, 8, 8, 4, 4, 0, 53]);
}

#[test]
fn udp_header_fragment_is_parsed() {
    let buf = vec![0, 0, 3, 0x01, 1, 2, 3, 4, 0, 80, 0xAB];
    let (h, n) = UDPAssociateHeader::parse(&buf).unwrap();
    assert_eq!(h.frag, 3);
    assert_eq!(h.port, 80);
    assert_eq!(n, 10);
}

#[test]
fn udp_header_parse_errors() {
    assert_eq!(UDPAssociateHeader::parse(&[0, 0, 0]), Err(SocksError::MalformedUdpDatagram));
    assert_eq!(
        UDPAssociateHeader::parse(&[0, 1, 0, 0x01, 1, 2, 3, 4, 0, 80]),
        Err(SocksError::MalformedUdpDatagram)
    );
    assert_eq!(
        UDPAssociateHeader::parse(&[0, 0, 0, 0x01, 1, 2, 3, 4, 0]),
        Err(SocksError::MalformedUdpDatagram)
    );
    assert_eq!(UDPAssociateHeader::parse(&[0, 0, 0, 0x03]), Err(SocksError::MalformedUdpDatagram));
    assert_eq!(
        UDPAssociateHeader::parse(&[0, 0, 0, 0x07, 1, 2]),
        Err(SocksError::UnsupportedAddressType)
    );
    assert_eq!(
        UDPAssociateHeader::parse(&[0, 0, 0, 0x03, 1, 0xC0, 0, 1]),
        Err(SocksError::MalformedDomain)
    );
}

#[test]
fn request_decode_connect_domain() {
    let mut frame = vec![0x05, 0x01, 0x00, 0x03, 10];
    frame.extend_from_slice(b"google.com");
    frame.extend_from_slice(&[0x01, 0xBB]);
    let (req, n) = SocksRequest::decode(&frame).unwrap();
    assert_eq!(n, frame.len());
    assert_eq!(req.cmd, 0x01);
    assert_eq!(req.address, Address::Domain("google.com".to_string()));
    assert_eq!(req.port, 443);
}

#[test]
fn request_decode_errors() {
    assert_eq!(
        SocksRequest::decode(&[0x04, 0x01, 0x00, 0x01, 1, 2, 3, 4, 0, 80]),
        Err(SocksError::ProtocolVersionMismatch)
    );
    assert_eq!(
        SocksRequest::decode(&[0x05, 0x01, 0x00, 0x09, 1, 2, 3, 4, 0, 80]),
        Err(SocksError::UnsupportedAddressType)
    );
    assert_eq!(SocksRequest::decode(&[0x05, 0x01]), Err(SocksError::Truncated));
}

#[test]
fn request_bytes_needed_reads_one_frame() {
    assert_eq!(SocksRequest::bytes_needed(&[]), Ok(4));
    assert_eq!(SocksRequest::bytes_needed(&[5, 1, 0, 1]), Ok(10));
    assert_eq!(SocksRequest::bytes_needed(&[5, 1, 0, 4]), Ok(22));
    assert_eq!(SocksRequest::bytes_needed(&[5, 1, 0, 3]), Ok(5));
    assert_eq!(SocksRequest::bytes_needed(&[5, 1, 0, 3, 7]), Ok(14));
    assert_eq!(SocksRequest::bytes_needed(&[4, 1, 0, 1]), Err(SocksError::ProtocolVersionMismatch));
    assert_eq!(SocksRequest::bytes_needed(&[5, 1, 0, 2]), Err(SocksError::UnsupportedAddressType));
}
