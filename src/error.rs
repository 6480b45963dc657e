//! The error taxonomy of a proxy session.
use vstd::prelude::*;

verus! {

/// Why a failed outbound connection attempt failed, as the operating system reported it.
#[derive(Debug, Clone, Copy, PartialEq, Eq, Structural)]
pub enum ConnectFailure {
    Refused,
    TimedOut,
    PermissionDenied,
    Other,
}

/// Every way in which a session can end in failure.
#[derive(Debug, Clone, Copy, PartialEq, Eq, Structural)]
pub enum SocksError {
    ProtocolVersionMismatch,
    UnsupportedAddressType,
    MalformedDomain,
    /// A frame ended before the bytes its format announces.
    Truncated,
    UnsupportedAuthVersion,
    AuthenticationFailed,
    NoAcceptableMethod,
    UnsupportedCommand,
    TargetConnectTimeout,
    TargetConnectFailed(ConnectFailure),
    MalformedUdpDatagram,
    UdpRelayIoFailure,
}

} // verus!
