use socks5_proxy::auth::{User, UserConfig};
use socks5_proxy::error::SocksError;
use socks5_proxy::protocol::Address;
use socks5_proxy::session::{Handshake, Next, Step};

fn config(with_user: bool) -> UserConfig {
    let user = if with_user {
        Some(User { username: "user".to_string(), password: "pass".to_string() })
    } else {
        None
    };
    UserConfig { user, timeout: 5 }
}

fn feed(h: &mut Handshake, input: &[u8]) -> Step {
    assert_eq!(h.wanted(), input.len());
    h.feed(input)
}

fn expect_read(step: &Step, n: usize) {
    match step.next {
        Next::Read(m) => assert_eq!(m, n),
        ref other => panic!("expected a read, got {:?}", other),
    }
}

/// Runs the greeting `[5, n, methods...]`.
fn greet(h: &mut Handshake, methods: &[u8]) -> Step {
    let s = feed(h, &[0x05]);
    assert!(s.reply.is_none());
    expect_read(&s, 1);
    let s = feed(h, &[methods.len() as u8]);
    expect_read(&s, methods.len());
    feed(h, methods)
}

fn authenticate(h: &mut Handshake, user: &[u8], pass: &[u8]) -> Step {
    let s = feed(h, &[0x01, user.len() as u8]);
    expect_read(&s, user.len());
    let s = feed(h, user);
    expect_read(&s, 1);
    let s = feed(h, &[pass.len() as u8]);
    expect_read(&s, pass.len());
    feed(h, pass)
}

#[test]
fn handshake_no_auth() {
    let mut h = Handshake::new(config(false));
    let s = greet(&mut h, &[0x00]);
    assert_eq!(s.reply, Some(vec![0x05, 0x00]));
    expect_read(&s, 4);
}

#[test]
fn handshake_password_required() {
    let mut h = Handshake::new(config(true));
    let s = greet(&mut h, &[0x02]);
    assert_eq!(s.reply, Some(vec![0x05, 0x02]));
    expect_read(&s, 2);
}

#[test]
fn handshake_no_acceptable_method() {
    let mut h = Handshake::new(config(true));
    let s = greet(&mut h, &[0x00]);
    assert_eq!(s.reply, Some(vec![0x05, 0xFF]));
    assert!(matches!(s.next, Next::Abort(SocksError::NoAcceptableMethod)));
    assert!(h.is_finished());
    assert_eq!(h.wanted(), 0);
}

#[test]
fn handshake_wrong_version() {
    let mut h = Handshake::new(config(false));
    let s = feed(&mut h, &[0x04]);
    assert!(s.reply.is_none());
    assert!(matches!(s.next, Next::Abort(SocksError::ProtocolVersionMismatch)));
}

#[test]
fn auth_success_then_request() {
    let mut h = Handshake::new(config(true));
    greet(&mut h, &[0x00, 0x02]);
    let s = authenticate(&mut h, b"user", b"pass");
    assert_eq!(s.reply, Some(vec![0x01, 0x00]));
    expect_read(&s, 4);
    let s = feed(&mut h, &[0x05, 0x01, 0x00, 0x01]);
    expect_read(&s, 6);
    let s = feed(&mut h, &[127, 0, 0, 1, 0x00, 0x50]);
    assert!(s.reply.is_none());
    match s.next {
        Next::Connect(req) => {
            assert_eq!(req.address, Address::IpV4([127, 0, 0, 1]));
            assert_eq!(req.port, 80);
        }
        other => panic!("unexpected {:?}", other),
    }
}

#[test]
fn auth_mismatch_fails() {
    let mut h = Handshake::new(config(true));
    greet(&mut h, &[0x02]);
    let s = authenticate(&mut h, b"user", b"wrong");
    assert_eq!(s.reply, Some(vec![0x01, 0x01]));
    assert!(matches!(s.next, Next::Abort(SocksError::AuthenticationFailed)));
}

#[test]
fn auth_wrong_sub_version_writes_nothing() {
    let mut h = Handshake::new(config(true));
    greet(&mut h, &[0x02]);
    let s = feed(&mut h, &[0x05, 0x04]);
    assert!(s.reply.is_none());
    assert!(matches!(s.next, Next::Abort(SocksError::UnsupportedAuthVersion)));
}

#[test]
fn unknown_command_never_dispatched() {
    let mut h = Handshake::new(config(false));
    greet(&mut h, &[0x00]);
    let s = feed(&mut h, &[0x05, 0x7F, 0x00, 0x01]);
    expect_read(&s, 6);
    let s = feed(&mut h, &[10, 0, 0, 1, 0x00, 0x50]);
    assert_eq!(s.reply, Some(vec![0x05, 0x07, 0x00, 0x01, 0, 0, 0, 0, 0, 0]));
    assert!(matches!(s.next, Next::Abort(SocksError::UnsupportedCommand)));
}

#[test]
fn udp_associate_with_domain_request() {
    let mut h = Handshake::new(config(false));
    greet(&mut h, &[0x00]);
    let s = feed(&mut h, &[0x05, 0x03, 0x00, 0x03]);
    expect_read(&s, 1);
    let s = feed(&mut h, &[4]);
    expect_read(&s, 6);
    let s = feed(&mut h, b"host\x00\x35");
    match s.next {
        Next::UdpAssociate(req) => {
            assert_eq!(req.address, Address::Domain("host".to_string()));
            assert_eq!(req.port, 53);
        }
        other => panic!("unexpected {:?}", other),
    }
}

#[test]
fn request_with_unknown_address_type_is_answered() {
    let mut h = Handshake::new(config(false));
    greet(&mut h, &[0x00]);
    let s = feed(&mut h, &[0x05, 0x01, 0x00, 0x09]);
    assert_eq!(s.reply, Some(vec![0x05, 0x08, 0x00, 0x01, 0, 0, 0, 0, 0, 0]));
    assert!(matches!(s.next, Next::Abort(SocksError::UnsupportedAddressType)));
}

#[test]
fn request_with_malformed_domain() {
    let mut h = Handshake::new(config(false));
    greet(&mut h, &[0x00]);
    feed(&mut h, &[0x05, 0x01, 0x00, 0x03]);
    feed(&mut h, &[2]);
    let s = feed(&mut h, &[0xFF, 0xFF, 0x00, 0x50]);
    assert!(s.reply.is_none());
    assert!(matches!(s.next, Next::Abort(SocksError::MalformedDomain)));
}
