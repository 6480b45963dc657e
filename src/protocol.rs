//! Byte-exact encoding and decoding of SOCKS5 addresses, requests and UDP
//! datagram headers.
use vstd::prelude::*;
use vstd::utf8::*;

use crate::consts::{ATYP_DOMAIN, ATYP_IPV4, ATYP_IPV6, RSV, SOCKS_VERSION};
use crate::error::SocksError;

verus! {

broadcast use {encode_utf8_valid_utf8, encode_utf8_decode_utf8, decode_utf8_encode_utf8};

/// A target address: an IPv4 address, a domain name, or an IPv6 address.
#[derive(Debug, PartialEq, Eq)]
pub enum Address {
    IpV4([u8; 4]),
    Domain(String),
    IpV6([u8; 16]),
}

/// The mathematical value of an [`Address`].
pub enum AddressView {
    V4(Seq<u8>),
    Domain(Seq<char>),
    V6(Seq<u8>),
}

impl View for Address {
    type V = AddressView;

    open spec fn view(&self) -> AddressView {
        match self {
            Address::IpV4(a) => AddressView::V4(a@),
            Address::Domain(s) => AddressView::Domain(s@),
            Address::IpV6(a) => AddressView::V6(a@),
        }
    }
}

/// An address that can be written on the wire: fixed-size IP addresses and a
/// domain whose UTF-8 encoding fits the one-byte length prefix.
pub open spec fn address_wf(a: AddressView) -> bool {
    match a {
        AddressView::V4(b) => b.len() == 4,
        AddressView::Domain(c) => encode_utf8(c).len() <= 255,
        AddressView::V6(b) => b.len() == 16,
    }
}

/// The address-type tag followed by the address body.
pub open spec fn address_bytes(a: AddressView) -> Seq<u8> {
    match a {
        AddressView::V4(b) => seq![ATYP_IPV4] + b,
        AddressView::Domain(c) => seq![ATYP_DOMAIN, encode_utf8(c).len() as u8] + encode_utf8(c),
        AddressView::V6(b) => seq![ATYP_IPV6] + b,
    }
}

/// A port in network byte order.
pub open spec fn port_bytes(p: u16) -> Seq<u8> {
    seq![(p / 256) as u8, (p % 256) as u8]
}

pub open spec fn port_of(hi: u8, lo: u8) -> u16 {
    (hi * 256 + lo) as u16
}

/// Decodes an address from the front of `s`, giving the address and the
/// number of bytes it took.
pub open spec fn decode_address(s: Seq<u8>) -> Result<(AddressView, int), SocksError> {
    if s.len() < 1 {
        Err(SocksError::Truncated)
    } else if s[0] == ATYP_IPV4 {
        if s.len() < 5 {
            Err(SocksError::Truncated)
        } else {
            Ok((AddressView::V4(s.subrange(1, 5)), 5))
        }
    } else if s[0] == ATYP_IPV6 {
        if s.len() < 17 {
            Err(SocksError::Truncated)
        } else {
            Ok((AddressView::V6(s.subrange(1, 17)), 17))
        }
    } else if s[0] == ATYP_DOMAIN {
        if s.len() < 2 || s.len() < 2 + s[1] {
            Err(SocksError::Truncated)
        } else if !valid_utf8(s.subrange(2, 2 + s[1])) {
            Err(SocksError::MalformedDomain)
        } else {
            Ok((AddressView::Domain(decode_utf8(s.subrange(2, 2 + s[1]))), 2 + s[1]))
        }
    } else {
        Err(SocksError::UnsupportedAddressType)
    }
}

/// Decodes an address followed by a port from the front of `s`.
pub open spec fn decode_endpoint(s: Seq<u8>) -> Result<(AddressView, u16, int), SocksError> {
    match decode_address(s) {
        Err(e) => Err(e),
        Ok((a, n)) => if s.len() < n + 2 {
            Err(SocksError::Truncated)
        } else {
            Ok((a, port_of(s[n], s[n + 1]), n + 2))
        },
    }
}

/// Relies on `String::from_utf8`: it succeeds exactly on well-formed UTF-8
/// (vstd's `valid_utf8`), and the string then holds the characters those
/// bytes encode (vstd's `decode_utf8`).
#[verifier::external_body]
fn string_from_utf8(bytes: Vec<u8>) -> (r: Option<String>)
    ensures
        r is Some <==> valid_utf8(bytes@),
        r matches Some(s) ==> s@ == decode_utf8(bytes@),
{
    String::from_utf8(bytes).ok()
}

/// Copies `N` bytes of `buf` from `start` into an array.
fn copy_array<const N: usize>(buf: &[u8], start: usize) -> (a: [u8; N])
    requires
        start + N <= buf@.len(),
    ensures
        a@ == buf@.subrange(start as int, start + N),
{
    let mut a = [0u8; N];
    let total = buf.len();
    let mut i: usize = 0;
    while i < N
        invariant
            start + N <= buf@.len() == total,
            i <= N,
            a@.len() == N,
            forall|j: int| 0 <= j < i ==> a@[j] == buf@[start + j],
        decreases N - i,
    {
        a[i] = buf[start + i];
        i = i + 1;
    }
    assert(a@ =~= buf@.subrange(start as int, start + N));
    a
}

/// Copies `len` bytes of `buf` from `start` into a vector.
fn copy_vec(buf: &[u8], start: usize, len: usize) -> (v: Vec<u8>)
    requires
        start + len <= buf@.len(),
    ensures
        v@ == buf@.subrange(start as int, start + len),
{
    let mut v: Vec<u8> = Vec::new();
    let total = buf.len();
    let mut i: usize = 0;
    while i < len
        invariant
            start + len <= buf@.len() == total,
            i <= len,
            v@ == buf@.subrange(start as int, start + i),
        decreases len - i,
    {
        v.push(buf[start + i]);
        i = i + 1;
        assert(v@ =~= buf@.subrange(start as int, start + i));
    }
    v
}

/// The bytes of `buf` from `start` to its end.
pub fn copy_payload(buf: &[u8], start: usize) -> (v: Vec<u8>)
    requires
        start <= buf@.len(),
    ensures
        v@ == buf@.subrange(start as int, buf@.len() as int),
{
    copy_vec(buf, start, buf.len() - start)
}

/// Appends every byte of `src` to `dst`.
pub fn append_bytes(dst: &mut Vec<u8>, src: &[u8])
    ensures
        final(dst)@ == old(dst)@ + src@,
{
    let ghost start = dst@;
    let mut i: usize = 0;
    while i < src.len()
        invariant
            i <= src@.len(),
            dst@ == start + src@.subrange(0, i as int),
        decreases src@.len() - i,
    {
        dst.push(src[i]);
        i = i + 1;
        assert(dst@ =~= start + src@.subrange(0, i as int));
    }
    assert(src@.subrange(0, src@.len() as int) =~= src@);
}

/// Compares two byte strings, byte for byte.
pub fn bytes_eq(a: &[u8], b: &[u8]) -> (r: bool)
    ensures
        r == (a@ == b@),
{
    if a.len() != b.len() {
        return false;
    }
    let mut i: usize = 0;
    while i < a.len()
        invariant
            a@.len() == b@.len(),
            i <= a@.len(),
            forall|j: int| 0 <= j < i ==> a@[j] == b@[j],
        decreases a@.len() - i,
    {
        if a[i] != b[i] {
            return false;
        }
        i = i + 1;
    }
    assert(a@ =~= b@);
    true
}

/// Reads a big-endian port from two bytes.
pub fn read_port(hi: u8, lo: u8) -> (p: u16)
    ensures
        p == port_of(hi, lo),
{
    (hi as u16) * 256 + (lo as u16)
}

/// Appends a port in network byte order.
pub fn write_port(buf: &mut Vec<u8>, port: u16)
    ensures
        final(buf)@ == old(buf)@ + port_bytes(port),
{
    buf.push((port / 256) as u8);
    buf.push((port % 256) as u8);
    assert(final(buf)@ =~= old(buf)@ + port_bytes(port));
}

impl Address {
    pub open spec fn wf(&self) -> bool {
        address_wf(self@)
    }

    /// Decodes the address that starts at `buf[start]`; on success also gives
    /// the number of bytes it took.
    pub fn decode(buf: &[u8], start: usize) -> (r: Result<(Address, usize), SocksError>)
        requires
            start <= buf@.len(),
        ensures
            match decode_address(buf@.subrange(start as int, buf@.len() as int)) {
                Ok((a, n)) => r matches Ok((x, m)) && x@ == a && m == n && x.wf(),
                Err(e) => r == Err::<(Address, usize), SocksError>(e),
            },
    {
        let ghost s = buf@.subrange(start as int, buf@.len() as int);
        let rest = buf.len() - start;
        if rest < 1 {
            return Err(SocksError::Truncated);
        }
        let atyp = buf[start];
        if atyp == ATYP_IPV4 {
            if rest < 5 {
                return Err(SocksError::Truncated);
            }
            let a: [u8; 4] = copy_array(buf, start + 1);
            assert(a@ =~= s.subrange(1, 5));
            Ok((Address::IpV4(a), 5))
        } else if atyp == ATYP_IPV6 {
            if rest < 17 {
                return Err(SocksError::Truncated);
            }
            let a: [u8; 16] = copy_array(buf, start + 1);
            assert(a@ =~= s.subrange(1, 17));
            Ok((Address::IpV6(a), 17))
        } else if atyp == ATYP_DOMAIN {
            if rest < 2 {
                return Err(SocksError::Truncated);
            }
            let len = buf[start + 1] as usize;
            if rest < 2 + len {
                return Err(SocksError::Truncated);
            }
            let bytes = copy_vec(buf, start + 2, len);
            assert(bytes@ =~= s.subrange(2, 2 + len));
            match string_from_utf8(bytes) {
                Some(d) => {
                    assert(encode_utf8(d@) == bytes@);
                    Ok((Address::Domain(d), 2 + len))
                },
                None => Err(SocksError::MalformedDomain),
            }
        } else {
            Err(SocksError::UnsupportedAddressType)
        }
    }

    /// Appends the address-type tag and the address body.
    pub fn encode_into(&self, buf: &mut Vec<u8>)
        requires
            self.wf(),
        ensures
            final(buf)@ == old(buf)@ + address_bytes(self@),
    {
        match self {
            Address::IpV4(a) => {
                buf.push(ATYP_IPV4);
                append_bytes(buf, a.as_slice());
            },
            Address::Domain(d) => {
                let b = d.as_str().as_bytes();
                buf.push(ATYP_DOMAIN);
                buf.push(b.len() as u8);
                append_bytes(buf, b);
            },
            Address::IpV6(a) => {
                buf.push(ATYP_IPV6);
                append_bytes(buf, a.as_slice());
            },
        }
        assert(final(buf)@ =~= old(buf)@ + address_bytes(self@));
    }

    /// The address-type tag followed by the address body.
    pub fn encode(&self) -> (r: Vec<u8>)
        requires
            self.wf(),
        ensures
            r@ == address_bytes(self@),
    {
        let mut buf: Vec<u8> = Vec::new();
        self.encode_into(&mut buf);
        assert(buf@ =~= address_bytes(self@));
        buf
    }
}

/// Decodes the address and port that start at `buf[start]`.
fn decode_endpoint_at(buf: &[u8], start: usize) -> (r: Result<(Address, u16, usize), SocksError>)
    requires
        start <= buf@.len(),
    ensures
        match decode_endpoint(buf@.subrange(start as int, buf@.len() as int)) {
            Ok((a, p, n)) => r matches Ok((x, q, m)) && x@ == a && q == p && m == n && x.wf(),
            Err(e) => r == Err::<(Address, u16, usize), SocksError>(e),
        },
{
    let ghost s = buf@.subrange(start as int, buf@.len() as int);
    match Address::decode(buf, start) {
        Err(e) => Err(e),
        Ok((a, n)) => {
            if buf.len() - start < n + 2 {
                Err(SocksError::Truncated)
            } else {
                assert(s[n as int] == buf@[start + n]);
                assert(s[n + 1] == buf@[start + n + 1]);
                let port = read_port(buf[start + n], buf[start + n + 1]);
                Ok((a, port, n + 2))
            }
        },
    }
}

/// The port survives the trip through its two wire bytes, in both directions.
pub proof fn lemma_port_round_trip(p: u16, hi: u8, lo: u8)
    ensures
        port_of(port_bytes(p)[0], port_bytes(p)[1]) == p,
        port_bytes(port_of(hi, lo)) == seq![hi, lo],
{
    assert(port_bytes(port_of(hi, lo)) =~= seq![hi, lo]);
}

/// Decoding the encoding of a well-formed address gives the address back,
/// whatever bytes follow it.
pub proof fn lemma_address_encode_decode(a: AddressView, rest: Seq<u8>)
    requires
        address_wf(a),
    ensures
        decode_address(address_bytes(a) + rest) == Ok::<(AddressView, int), SocksError>(
            (a, address_bytes(a).len() as int),
        ),
{
    let s = address_bytes(a) + rest;
    match a {
        AddressView::V4(b) => {
            assert(s.subrange(1, 5) =~= b);
        },
        AddressView::V6(b) => {
            assert(s.subrange(1, 17) =~= b);
        },
        AddressView::Domain(c) => {
            let e = encode_utf8(c);
            assert(s[1] == e.len());
            assert(s.subrange(2, 2 + e.len() as int) =~= e);
        },
    }
}

/// Bytes that decode to an address start with exactly that address's
/// encoding, and the address is well formed.
pub proof fn lemma_address_decode_encode(s: Seq<u8>)
    requires
        decode_address(s) is Ok,
    ensures
        address_wf(decode_address(s)->Ok_0.0),
        address_bytes(decode_address(s)->Ok_0.0) == s.subrange(0, decode_address(s)->Ok_0.1),
{
    let (a, n) = decode_address(s)->Ok_0;
    if s[0] == ATYP_DOMAIN {
        let b = s.subrange(2, 2 + s[1]);
        assert(encode_utf8(decode_utf8(b)) == b);
    }
    assert(address_bytes(a) =~= s.subrange(0, n));
}

/// The header that precedes every relayed UDP payload.
#[derive(Debug, PartialEq, Eq)]
pub struct UDPAssociateHeader {
    pub frag: u8,
    pub address: Address,
    pub port: u16,
}

/// The mathematical value of a [`UDPAssociateHeader`].
pub struct UdpHeaderView {
    pub frag: u8,
    pub address: AddressView,
    pub port: u16,
}

impl View for UDPAssociateHeader {
    type V = UdpHeaderView;

    open spec fn view(&self) -> UdpHeaderView {
        UdpHeaderView { frag: self.frag, address: self.address@, port: self.port }
    }
}

/// Two reserved zero bytes, the fragment byte, the address and the port.
pub open spec fn udp_header_bytes(h: UdpHeaderView) -> Seq<u8> {
    seq![RSV, RSV, h.frag] + address_bytes(h.address) + port_bytes(h.port)
}

/// Decodes a UDP header from the front of a datagram, giving the header and
/// the number of bytes it took; the payload is what follows.
pub open spec fn decode_udp_header(s: Seq<u8>) -> Result<(UdpHeaderView, int), SocksError> {
    if s.len() < 4 || s[0] != RSV || s[1] != RSV {
        Err(SocksError::MalformedUdpDatagram)
    } else {
        match decode_endpoint(s.subrange(3, s.len() as int)) {
            Err(SocksError::Truncated) => Err(SocksError::MalformedUdpDatagram),
            Err(e) => Err(e),
            Ok((a, p, n)) => Ok((UdpHeaderView { frag: s[2], address: a, port: p }, 3 + n)),
        }
    }
}

impl UDPAssociateHeader {
    pub open spec fn wf(&self) -> bool {
        address_wf(self.address@)
    }

    /// Parses the header at the front of a whole datagram; on success also
    /// gives the number of header bytes, after which the payload starts.
    pub fn parse(buf: &[u8]) -> (r: Result<(UDPAssociateHeader, usize), SocksError>)
        ensures
            match decode_udp_header(buf@) {
                Ok((h, n)) => r matches Ok((x, m)) && x@ == h && m == n && x.wf(),
                Err(e) => r == Err::<(UDPAssociateHeader, usize), SocksError>(e),
            },
    {
        if buf.len() < 4 || buf[0] != RSV || buf[1] != RSV {
            return Err(SocksError::MalformedUdpDatagram);
        }
        let frag = buf[2];
        match decode_endpoint_at(buf, 3) {
            Err(SocksError::Truncated) => Err(SocksError::MalformedUdpDatagram),
            Err(e) => Err(e),
            Ok((address, port, n)) => Ok((UDPAssociateHeader { frag, address, port }, 3 + n)),
        }
    }

    /// Appends the encoded header to `buf`.
    pub fn write(&self, buf: &mut Vec<u8>)
        requires
            self.wf(),
        ensures
            final(buf)@ == old(buf)@ + udp_header_bytes(self@),
    {
        buf.push(RSV);
        buf.push(RSV);
        buf.push(self.frag);
        self.address.encode_into(buf);
        write_port(buf, self.port);
        assert(final(buf)@ =~= old(buf)@ + udp_header_bytes(self@));
    }
}

/// A header written before a payload parses back to the same header, its
/// length is the number of bytes parsed, and what follows is the payload.
pub proof fn lemma_udp_header_round_trip(h: UdpHeaderView, payload: Seq<u8>)
    requires
        address_wf(h.address),
    ensures
        decode_udp_header(udp_header_bytes(h) + payload) == Ok::<(UdpHeaderView, int), SocksError>(
            (h, udp_header_bytes(h).len() as int),
        ),
        (udp_header_bytes(h) + payload).subrange(
            udp_header_bytes(h).len() as int,
            (udp_header_bytes(h) + payload).len() as int,
        ) == payload,
{
    let w = udp_header_bytes(h);
    let s = w + payload;
    let ab = address_bytes(h.address);
    let tail = s.subrange(3, s.len() as int);
    assert(tail =~= ab + (port_bytes(h.port) + payload));
    lemma_address_encode_decode(h.address, port_bytes(h.port) + payload);
    assert(tail[ab.len() as int] == port_bytes(h.port)[0]);
    assert(tail[ab.len() as int + 1] == port_bytes(h.port)[1]);
    lemma_port_round_trip(h.port, 0, 0);
    assert(s.subrange(w.len() as int, s.len() as int) =~= payload);
}

/// A client request: the command and the target it names.
#[derive(Debug, PartialEq, Eq)]
pub struct SocksRequest {
    pub cmd: u8,
    pub address: Address,
    pub port: u16,
}

/// The mathematical value of a [`SocksRequest`].
pub struct RequestView {
    pub cmd: u8,
    pub address: AddressView,
    pub port: u16,
}

impl View for SocksRequest {
    type V = RequestView;

    open spec fn view(&self) -> RequestView {
        RequestView { cmd: self.cmd, address: self.address@, port: self.port }
    }
}

/// Decodes a request frame `[version, command, reserved, address, port]`
/// from the front of `s`.
pub open spec fn decode_request(s: Seq<u8>) -> Result<(RequestView, int), SocksError> {
    if s.len() < 4 {
        Err(SocksError::Truncated)
    } else if s[0] != SOCKS_VERSION {
        Err(SocksError::ProtocolVersionMismatch)
    } else {
        match decode_endpoint(s.subrange(3, s.len() as int)) {
            Err(e) => Err(e),
            Ok((a, p, n)) => Ok((RequestView { cmd: s[1], address: a, port: p }, 3 + n)),
        }
    }
}

/// How long the request frame whose first bytes are `s` is, as far as those
/// bytes tell: the four-byte head, then the fixed address sizes, and for a
/// domain first its length byte.
pub open spec fn request_frame_len(s: Seq<u8>) -> Result<int, SocksError> {
    if s.len() < 4 {
        Ok(4)
    } else if s[0] != SOCKS_VERSION {
        Err(SocksError::ProtocolVersionMismatch)
    } else if s[3] == ATYP_IPV4 {
        Ok(10)
    } else if s[3] == ATYP_IPV6 {
        Ok(22)
    } else if s[3] == ATYP_DOMAIN {
        if s.len() < 5 {
            Ok(5)
        } else {
            Ok(7 + s[4])
        }
    } else {
        Err(SocksError::UnsupportedAddressType)
    }
}

impl SocksRequest {
    /// Decodes a request frame held in `buf`; on success also gives the
    /// number of bytes the frame took.
    pub fn decode(buf: &[u8]) -> (r: Result<(SocksRequest, usize), SocksError>)
        ensures
            match decode_request(buf@) {
                Ok((q, n)) => r matches Ok((x, m)) && x@ == q && m == n && x.address.wf(),
                Err(e) => r == Err::<(SocksRequest, usize), SocksError>(e),
            },
    {
        if buf.len() < 4 {
            return Err(SocksError::Truncated);
        }
        if buf[0] != SOCKS_VERSION {
            return Err(SocksError::ProtocolVersionMismatch);
        }
        let cmd = buf[1];
        match decode_endpoint_at(buf, 3) {
            Err(e) => Err(e),
            Ok((address, port, n)) => Ok((SocksRequest { cmd, address, port }, 3 + n)),
        }
    }

    /// The number of bytes the request frame starting with `prefix` must have
    /// before it can be decoded. A reader takes bytes from the stream until
    /// it holds that many; no byte past the frame is ever asked for.
    pub fn bytes_needed(prefix: &[u8]) -> (r: Result<usize, SocksError>)
        ensures
            match request_frame_len(prefix@) {
                Ok(n) => r == Ok::<usize, SocksError>(n as usize),
                Err(e) => r == Err::<usize, SocksError>(e),
            },
    {
        if prefix.len() < 4 {
            Ok(4)
        } else if prefix[0] != SOCKS_VERSION {
            Err(SocksError::ProtocolVersionMismatch)
        } else if prefix[3] == ATYP_IPV4 {
            Ok(10)
        } else if prefix[3] == ATYP_IPV6 {
            Ok(22)
        } else if prefix[3] == ATYP_DOMAIN {
            if prefix.len() < 5 {
                Ok(5)
            } else {
                Ok(7 + prefix[4] as usize)
            }
        } else {
            Err(SocksError::UnsupportedAddressType)
        }
    }
}

/// Reading by `bytes_needed` reads exactly one frame: once the buffer holds
/// as many bytes as it asks for, the frame is complete and decoding takes
/// every byte (or finds a malformed domain), and each earlier answer never
/// asked for more than the frame holds.
pub proof fn lemma_request_frame_exact(s: Seq<u8>)
    requires
        request_frame_len(s) == Ok::<int, SocksError>(s.len() as int),
    ensures
        match decode_request(s) {
            Ok((_, n)) => n == s.len(),
            Err(e) => e == SocksError::MalformedDomain,
        },
        forall|k: int|
            0 <= k < s.len() ==> (#[trigger] request_frame_len(s.subrange(0, k)) is Ok && k
                < request_frame_len(s.subrange(0, k))->Ok_0 <= s.len()),
{
    let t = s.subrange(3, s.len() as int);
    assert(t[0] == s[3]);
    if s[3] == ATYP_DOMAIN {
        assert(t[1] == s[4]);
    }
    assert forall|k: int| 0 <= k < s.len() implies (#[trigger] request_frame_len(s.subrange(0, k))
        is Ok && k < request_frame_len(s.subrange(0, k))->Ok_0 <= s.len()) by {
        let p = s.subrange(0, k);
        if k >= 4 {
            assert(p[0] == s[0] && p[3] == s[3]);
        }
        if k >= 5 {
            assert(p[4] == s[4]);
        }
    }
}

} // verus!
