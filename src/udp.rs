//! The UDP relay session: which datagrams come from the client, and what is
//! sent on for each datagram the relay socket receives.
use vstd::prelude::*;

use crate::error::SocksError;
use crate::protocol::{
    append_bytes, bytes_eq, copy_payload, decode_udp_header, udp_header_bytes, Address,
    AddressView, UDPAssociateHeader, UdpHeaderView,
};

verus! {

/// An IP address, as the relay sees it on a datagram's source.
#[derive(Debug, Clone, Copy, PartialEq, Eq)]
pub enum IpAddress {
    V4([u8; 4]),
    V6([u8; 16]),
}

pub enum IpView {
    V4(Seq<u8>),
    V6(Seq<u8>),
}

impl View for IpAddress {
    type V = IpView;

    open spec fn view(&self) -> IpView {
        match self {
            IpAddress::V4(a) => IpView::V4(a@),
            IpAddress::V6(a) => IpView::V6(a@),
        }
    }
}

/// An IP address and a port.
#[derive(Debug, Clone, Copy, PartialEq, Eq)]
pub struct SocketAddress {
    pub ip: IpAddress,
    pub port: u16,
}

pub struct EndpointView {
    pub ip: IpView,
    pub port: u16,
}

impl View for SocketAddress {
    type V = EndpointView;

    open spec fn view(&self) -> EndpointView {
        EndpointView { ip: self.ip@, port: self.port }
    }
}

/// The address form of an IP address, as a UDP header carries it.
pub open spec fn ip_address_view(ip: IpView) -> AddressView {
    match ip {
        IpView::V4(b) => AddressView::V4(b),
        IpView::V6(b) => AddressView::V6(b),
    }
}

fn ip_eq(a: &IpAddress, b: &IpAddress) -> (r: bool)
    ensures
        r == (a@ == b@),
{
    match (a, b) {
        (IpAddress::V4(x), IpAddress::V4(y)) => bytes_eq(x.as_slice(), y.as_slice()),
        (IpAddress::V6(x), IpAddress::V6(y)) => bytes_eq(x.as_slice(), y.as_slice()),
        _ => false,
    }
}

fn endpoint_eq(a: &SocketAddress, b: &SocketAddress) -> (r: bool)
    ensures
        r == (a@ == b@),
{
    ip_eq(&a.ip, &b.ip) && a.port == b.port
}

fn ip_to_address(ip: &IpAddress) -> (a: Address)
    ensures
        a@ == ip_address_view(ip@),
        a.wf(),
{
    match ip {
        IpAddress::V4(x) => Address::IpV4(*x),
        IpAddress::V6(x) => Address::IpV6(*x),
    }
}

/// The state of one UDP relay session: the IP of the controlling TCP
/// connection's peer, and the client endpoint once it has been learned.
pub struct UDPRelay {
    client_addr: Option<SocketAddress>,
    expected_client_ip: IpAddress,
}

pub struct RelayView {
    pub client: Option<EndpointView>,
    pub expected: IpView,
}

impl View for UDPRelay {
    type V = RelayView;

    closed spec fn view(&self) -> RelayView {
        RelayView {
            client: match self.client_addr {
                Some(c) => Some(c@),
                None => None,
            },
            expected: self.expected_client_ip@,
        }
    }
}

/// What the receive loop handed back.
#[derive(Debug)]
pub enum RelayEvent {
    /// No datagram came within the idle timeout.
    IdleTimeout,
    /// Receiving failed.
    ReceiveFailed,
    /// A datagram came from this source; its bytes are passed beside the event.
    Received(SocketAddress),
}

pub enum EventView {
    IdleTimeout,
    ReceiveFailed,
    Received(EndpointView),
}

impl View for RelayEvent {
    type V = EventView;

    open spec fn view(&self) -> EventView {
        match self {
            RelayEvent::IdleTimeout => EventView::IdleTimeout,
            RelayEvent::ReceiveFailed => EventView::ReceiveFailed,
            RelayEvent::Received(s) => EventView::Received(s@),
        }
    }
}

/// Why a datagram was not relayed.
#[derive(Debug, Clone, Copy, PartialEq, Eq, Structural)]
pub enum DropReason {
    /// A client datagram whose header does not parse, with the parse error.
    Malformed(SocksError),
    /// A client datagram with this nonzero fragment number; reassembly is not supported.
    Fragmented(u8),
    /// A target datagram that came before any client endpoint was learned.
    NoClient,
}

/// What the receive loop does next.
#[derive(Debug)]
pub enum RelayAction {
    /// End the session without error.
    Stop,
    /// End the session with this error.
    Fail(SocksError),
    /// Send nothing for this datagram, for this reason, and receive the next one.
    Drop(DropReason),
    /// Send `data` to `dest`:`port` from the relay socket, then receive the next datagram.
    Send { dest: Address, port: u16, data: Vec<u8> },
}

pub enum ActionView {
    Stop,
    Fail(SocksError),
    Drop(DropReason),
    Send(AddressView, u16, Seq<u8>),
}

impl View for RelayAction {
    type V = ActionView;

    open spec fn view(&self) -> ActionView {
        match self {
            RelayAction::Stop => ActionView::Stop,
            RelayAction::Fail(e) => ActionView::Fail(*e),
            RelayAction::Drop(d) => ActionView::Drop(*d),
            RelayAction::Send { dest, port, data } => ActionView::Send(dest@, *port, data@),
        }
    }
}

/// A datagram is the client's when its source IP is that of the controlling
/// connection and, once a client endpoint is learned, its port is that one too.
pub open spec fn from_client(st: RelayView, src: EndpointView) -> bool {
    src.ip == st.expected && match st.client {
        Some(c) => c == src,
        None => true,
    }
}

/// A client datagram goes to the target its header names, without the
/// header; one with a fragment number or a header that does not parse is
/// dropped, with the reason.
pub open spec fn outbound_action(packet: Seq<u8>) -> ActionView {
    match decode_udp_header(packet) {
        Ok((h, n)) => if h.frag == 0 {
            ActionView::Send(h.address, h.port, packet.subrange(n, packet.len() as int))
        } else {
            ActionView::Drop(DropReason::Fragmented(h.frag))
        },
        Err(e) => ActionView::Drop(DropReason::Malformed(e)),
    }
}

/// A target's datagram goes to the learned client, behind a header that
/// names its sender; before a client is learned there is no destination,
/// and it is dropped.
pub open spec fn inbound_action(st: RelayView, src: EndpointView, payload: Seq<u8>) -> ActionView {
    match st.client {
        Some(c) => ActionView::Send(
            ip_address_view(c.ip),
            c.port,
            udp_header_bytes(UdpHeaderView { frag: 0, address: ip_address_view(src.ip), port: src.port })
                + payload,
        ),
        None => ActionView::Drop(DropReason::NoClient),
    }
}

/// One step of the session: the new state and the action for an event.
pub open spec fn relay_step(st: RelayView, ev: EventView, packet: Seq<u8>) -> (RelayView, ActionView) {
    match ev {
        EventView::IdleTimeout => (st, ActionView::Stop),
        EventView::ReceiveFailed => (st, ActionView::Fail(SocksError::UdpRelayIoFailure)),
        EventView::Received(src) => if from_client(st, src) {
            (
                RelayView {
                    client: match st.client {
                        Some(c) => Some(c),
                        None => Some(src),
                    },
                    expected: st.expected,
                },
                outbound_action(packet),
            )
        } else {
            (st, inbound_action(st, src, packet))
        },
    }
}

impl UDPRelay {
    /// A session for the client whose controlling connection comes from `client_ip`.
    pub fn new(client_ip: IpAddress) -> (r: UDPRelay)
        ensures
            r@.client is None,
            r@.expected == client_ip@,
    {
        UDPRelay { client_addr: None, expected_client_ip: client_ip }
    }

    /// The client endpoint, once learned.
    pub fn client_addr(&self) -> (r: Option<SocketAddress>)
        ensures
            r matches Some(c) ==> self@.client == Some(c@),
            r is None ==> self@.client is None,
    {
        self.client_addr
    }

    /// Whether a datagram from `addr` is the client's.
    pub fn is_from_client(&self, addr: &SocketAddress) -> (r: bool)
        ensures
            r == from_client(self@, addr@),
    {
        if !ip_eq(&addr.ip, &self.expected_client_ip) {
            return false;
        }
        match &self.client_addr {
            Some(c) => endpoint_eq(c, addr),
            None => true,
        }
    }

    /// Handles a datagram of the client: learns its endpoint if none is
    /// learned yet, and strips the header to forward the payload.
    pub fn handle_outbound(&mut self, packet: &[u8], src_addr: SocketAddress) -> (r: RelayAction)
        ensures
            r@ == outbound_action(packet@),
            final(self)@.expected == old(self)@.expected,
            final(self)@.client == match old(self)@.client {
                Some(c) => Some(c),
                None => Some(src_addr@),
            },
    {
        if self.client_addr.is_none() {
            self.client_addr = Some(src_addr);
        }
        match UDPAssociateHeader::parse(packet) {
            Err(e) => RelayAction::Drop(DropReason::Malformed(e)),
            Ok((header, header_len)) => {
                if header.frag != 0 {
                    RelayAction::Drop(DropReason::Fragmented(header.frag))
                } else {
                    let data = copy_payload(packet, header_len);
                    RelayAction::Send { dest: header.address, port: header.port, data }
                }
            },
        }
    }

    /// Handles a datagram of a target: wraps it in a header naming its
    /// sender and forwards it to the client.
    pub fn handle_inbound(&self, payload: &[u8], src_addr: SocketAddress) -> (r: RelayAction)
        ensures
            r@ == inbound_action(self@, src_addr@, payload@),
    {
        match &self.client_addr {
            None => RelayAction::Drop(DropReason::NoClient),
            Some(client) => {
                let header = UDPAssociateHeader {
                    frag: 0,
                    address: ip_to_address(&src_addr.ip),
                    port: src_addr.port,
                };
                let mut data: Vec<u8> = Vec::new();
                header.write(&mut data);
                append_bytes(&mut data, payload);
                assert(data@ =~= udp_header_bytes(header@) + payload@);
                RelayAction::Send { dest: ip_to_address(&client.ip), port: client.port, data }
            },
        }
    }

    /// Decides what the receive loop does after each receive: an idle
    /// timeout ends the session cleanly, a receive failure ends it with
    /// `UdpRelayIoFailure`, and a datagram is relayed in the direction its
    /// source gives, or dropped with the reason.
    pub fn on_event(&mut self, event: &RelayEvent, packet: &[u8]) -> (r: RelayAction)
        ensures
            (final(self)@, r@) == relay_step(old(self)@, event@, packet@),
    {
        match event {
            RelayEvent::IdleTimeout => RelayAction::Stop,
            RelayEvent::ReceiveFailed => RelayAction::Fail(SocksError::UdpRelayIoFailure),
            RelayEvent::Received(src) => {
                if self.is_from_client(src) {
                    self.handle_outbound(packet, *src)
                } else {
                    self.handle_inbound(packet, *src)
                }
            },
        }
    }
}

/// The first datagram from the expected IP, on whatever port, locks the
/// session to its endpoint, while one from another IP locks nothing. Once
/// locked, the client endpoint never changes, and a datagram from the same
/// IP on another port is not the client's.
pub proof fn lemma_client_endpoint_locks(
    st: RelayView,
    src: EndpointView,
    ev: EventView,
    packet: Seq<u8>,
    other: EndpointView,
)
    requires
        st.client is None,
        src.ip == st.expected,
    ensures
        relay_step(st, EventView::Received(src), packet).0.client == Some(src),
        relay_step(relay_step(st, EventView::Received(src), packet).0, ev, packet).0.client == Some(
            src,
        ),
        other.ip == src.ip && other.port != src.port ==> !from_client(
            relay_step(st, EventView::Received(src), packet).0,
            other,
        ),
        other.ip != st.expected ==> relay_step(st, EventView::Received(other), packet).0 == st,
{
}

/// An idle timeout ends the session without error and leaves its state as it was.
pub proof fn lemma_idle_timeout_stops(st: RelayView, packet: Seq<u8>)
    ensures
        relay_step(st, EventView::IdleTimeout, packet) == (st, ActionView::Stop),
{
}

} // verus!
