//! The decisions of a session: method negotiation, command dispatch, and the
//! reply frame owed for each outcome.
use vstd::prelude::*;

use crate::auth::UserConfig;
use crate::consts::{
    ATYP_IPV4, CMD_CONNECT, CMD_UDP_ASSOCIATE, METHOD_NO_ACCEPTABLE, METHOD_NO_AUTH,
    METHOD_PASSWORD, REP_ADDRESS_TYPE_NOT_SUPPORTED, REP_COMMAND_NOT_SUPPORTED,
    REP_CONNECTION_NOT_ALLOWED, REP_CONNECTION_REFUSED, REP_HOST_UNREACHABLE,
    REP_NETWORK_UNREACHABLE, REP_SUCCESS, REP_TTL_EXPIRED, SOCKS_VERSION,
};
use crate::error::{ConnectFailure, SocksError};
use crate::protocol::{port_bytes, write_port};

verus! {

/// The authentication method the server selects.
#[derive(Debug, Clone, Copy, PartialEq, Eq, Structural)]
pub enum MethodChoice {
    NoAuth,
    Password,
    NoAcceptable,
}

/// A server with a credential demands password authentication and takes no
/// other method; a server without one selects no authentication, whatever
/// the client offered.
pub open spec fn choose_method(methods: Seq<u8>, has_credential: bool) -> MethodChoice {
    if !has_credential {
        MethodChoice::NoAuth
    } else if methods.contains(METHOD_PASSWORD) {
        MethodChoice::Password
    } else {
        MethodChoice::NoAcceptable
    }
}

/// Checks the version byte that opens a connection.
pub fn check_socks_version(ver: u8) -> (r: Result<(), SocksError>)
    ensures
        r is Ok <==> ver == SOCKS_VERSION,
        r is Err ==> r == Err::<(), SocksError>(SocksError::ProtocolVersionMismatch),
{
    if ver == SOCKS_VERSION {
        Ok(())
    } else {
        Err(SocksError::ProtocolVersionMismatch)
    }
}

/// Selects the authentication method from those the client offered.
pub fn negotiate(methods: &[u8], config: &UserConfig) -> (c: MethodChoice)
    ensures
        c == choose_method(methods@, config.user is Some),
{
    if config.user.is_none() {
        return MethodChoice::NoAuth;
    }
    let mut i: usize = 0;
    while i < methods.len()
        invariant
            config.user is Some,
            i <= methods@.len(),
            forall|j: int| 0 <= j < i ==> methods@[j] != METHOD_PASSWORD,
        decreases methods@.len() - i,
    {
        if methods[i] == METHOD_PASSWORD {
            assert(methods@[i as int] == METHOD_PASSWORD);
            assert(methods@.contains(METHOD_PASSWORD));
            return MethodChoice::Password;
        }
        i = i + 1;
    }
    MethodChoice::NoAcceptable
}

impl MethodChoice {
    pub open spec fn spec_method_byte(self) -> u8 {
        match self {
            MethodChoice::NoAuth => METHOD_NO_AUTH,
            MethodChoice::Password => METHOD_PASSWORD,
            MethodChoice::NoAcceptable => METHOD_NO_ACCEPTABLE,
        }
    }

    /// The method identifier sent back to the client.
    pub fn method_byte(&self) -> (b: u8)
        ensures
            b == self.spec_method_byte(),
    {
        match self {
            MethodChoice::NoAuth => METHOD_NO_AUTH,
            MethodChoice::Password => METHOD_PASSWORD,
            MethodChoice::NoAcceptable => METHOD_NO_ACCEPTABLE,
        }
    }

    /// The method-selection reply `[version, method]`.
    pub fn reply(&self) -> (r: Vec<u8>)
        ensures
            r@ == seq![SOCKS_VERSION, self.spec_method_byte()],
    {
        let mut r: Vec<u8> = Vec::new();
        r.push(SOCKS_VERSION);
        r.push(self.method_byte());
        assert(r@ =~= seq![SOCKS_VERSION, self.spec_method_byte()]);
        r
    }

    /// What follows the reply: `Ok(true)` when a password exchange must come
    /// next, `Ok(false)` when the request comes next, and an error when no
    /// method was acceptable and the session ends without reading more.
    pub fn next_step(&self) -> (r: Result<bool, SocksError>)
        ensures
            *self == MethodChoice::NoAuth ==> r == Ok::<bool, SocksError>(false),
            *self == MethodChoice::Password ==> r == Ok::<bool, SocksError>(true),
            *self == MethodChoice::NoAcceptable ==> r == Err::<bool, SocksError>(
                SocksError::NoAcceptableMethod,
            ),
    {
        match self {
            MethodChoice::NoAuth => Ok(false),
            MethodChoice::Password => Ok(true),
            MethodChoice::NoAcceptable => Err(SocksError::NoAcceptableMethod),
        }
    }
}

/// The handlers a request can be dispatched to.
#[derive(Debug, Clone, Copy, PartialEq, Eq, Structural)]
pub enum Command {
    Connect,
    UdpAssociate,
}

/// Dispatches on the command byte of a request; any command but CONNECT and
/// UDP ASSOCIATE is refused.
pub fn dispatch(cmd: u8) -> (r: Result<Command, SocksError>)
    ensures
        cmd == CMD_CONNECT ==> r == Ok::<Command, SocksError>(Command::Connect),
        cmd == CMD_UDP_ASSOCIATE ==> r == Ok::<Command, SocksError>(Command::UdpAssociate),
        cmd != CMD_CONNECT && cmd != CMD_UDP_ASSOCIATE ==> r == Err::<Command, SocksError>(
            SocksError::UnsupportedCommand,
        ),
{
    if cmd == CMD_CONNECT {
        Ok(Command::Connect)
    } else if cmd == CMD_UDP_ASSOCIATE {
        Ok(Command::UdpAssociate)
    } else {
        Err(SocksError::UnsupportedCommand)
    }
}

/// The ten-byte reply frame: version, reply code, a reserved zero, and an
/// IPv4 bound address of 0.0.0.0 with the given port.
pub open spec fn reply_bytes(rep: u8, port: u16) -> Seq<u8> {
    seq![SOCKS_VERSION, rep, 0u8, ATYP_IPV4, 0u8, 0u8, 0u8, 0u8] + port_bytes(port)
}

/// Builds the reply frame with reply code `rep` and bound port `port`.
pub fn reply_frame(rep: u8, port: u16) -> (r: Vec<u8>)
    ensures
        r@ == reply_bytes(rep, port),
        r@.len() == 10,
{
    let mut r: Vec<u8> = Vec::new();
    r.push(SOCKS_VERSION);
    r.push(rep);
    r.push(0);
    r.push(ATYP_IPV4);
    r.push(0);
    r.push(0);
    r.push(0);
    r.push(0);
    write_port(&mut r, port);
    assert(r@ =~= reply_bytes(rep, port));
    r
}

/// The reply code for each reason a connection attempt failed.
pub open spec fn failure_code(f: ConnectFailure) -> u8 {
    match f {
        ConnectFailure::Refused => REP_CONNECTION_REFUSED,
        ConnectFailure::TimedOut => REP_NETWORK_UNREACHABLE,
        ConnectFailure::PermissionDenied => REP_CONNECTION_NOT_ALLOWED,
        ConnectFailure::Other => REP_HOST_UNREACHABLE,
    }
}

/// The reply code the protocol defines for an error, where it defines one.
pub open spec fn spec_error_code(e: SocksError) -> Option<u8> {
    match e {
        SocksError::UnsupportedCommand => Some(REP_COMMAND_NOT_SUPPORTED),
        SocksError::UnsupportedAddressType => Some(REP_ADDRESS_TYPE_NOT_SUPPORTED),
        SocksError::TargetConnectTimeout => Some(REP_TTL_EXPIRED),
        SocksError::TargetConnectFailed(f) => Some(failure_code(f)),
        _ => None,
    }
}

/// The reply code for a reason a connection attempt failed.
pub fn failure_reply_code(f: ConnectFailure) -> (c: u8)
    ensures
        c == failure_code(f),
{
    match f {
        ConnectFailure::Refused => REP_CONNECTION_REFUSED,
        ConnectFailure::TimedOut => REP_NETWORK_UNREACHABLE,
        ConnectFailure::PermissionDenied => REP_CONNECTION_NOT_ALLOWED,
        ConnectFailure::Other => REP_HOST_UNREACHABLE,
    }
}

/// The reply code the protocol defines for an error, where it defines one.
pub fn error_code(e: SocksError) -> (r: Option<u8>)
    ensures
        r == spec_error_code(e),
{
    match e {
        SocksError::UnsupportedCommand => Some(REP_COMMAND_NOT_SUPPORTED),
        SocksError::UnsupportedAddressType => Some(REP_ADDRESS_TYPE_NOT_SUPPORTED),
        SocksError::TargetConnectTimeout => Some(REP_TTL_EXPIRED),
        SocksError::TargetConnectFailed(f) => Some(failure_reply_code(f)),
        _ => None,
    }
}

/// The reply frame to send, best effort, before a session ends with `e`;
/// `None` where the protocol defines no reply for it.
pub fn error_reply(e: SocksError) -> (r: Option<Vec<u8>>)
    ensures
        match spec_error_code(e) {
            Some(c) => r matches Some(v) && v@ == reply_bytes(c, 0),
            None => r is None,
        },
{
    match error_code(e) {
        Some(c) => Some(reply_frame(c, 0)),
        None => None,
    }
}

/// How an attempt to connect to the target ended.
#[derive(Debug, Clone, Copy, PartialEq, Eq, Structural)]
pub enum ConnectOutcome {
    Connected,
    /// The configured connect timeout elapsed first.
    TimedOut,
    Failed(ConnectFailure),
}

/// The error a connection outcome ends the session with, if any.
pub open spec fn connect_result(o: ConnectOutcome) -> Result<(), SocksError> {
    match o {
        ConnectOutcome::Connected => Ok(()),
        ConnectOutcome::TimedOut => Err(SocksError::TargetConnectTimeout),
        ConnectOutcome::Failed(f) => Err(SocksError::TargetConnectFailed(f)),
    }
}

/// The reply owed to the client for a connection outcome, and whether the
/// relay goes on: success is answered with code 0 and the relay starts; a
/// failure is answered with its code and ends the session.
pub fn connect_reply(outcome: ConnectOutcome) -> (r: (Vec<u8>, Result<(), SocksError>))
    ensures
        r.1 == connect_result(outcome),
        outcome == ConnectOutcome::Connected ==> r.0@ == reply_bytes(REP_SUCCESS, 0),
        connect_result(outcome) matches Err(e) ==> spec_error_code(e) matches Some(c) && r.0@
            == reply_bytes(c, 0),
{
    match outcome {
        ConnectOutcome::Connected => (reply_frame(REP_SUCCESS, 0), Ok(())),
        ConnectOutcome::TimedOut => (
            reply_frame(REP_TTL_EXPIRED, 0),
            Err(SocksError::TargetConnectTimeout),
        ),
        ConnectOutcome::Failed(f) => (
            reply_frame(failure_reply_code(f), 0),
            Err(SocksError::TargetConnectFailed(f)),
        ),
    }
}

} // verus!
