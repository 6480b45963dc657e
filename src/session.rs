//! The per-connection handshake as a state machine: each call takes the
//! bytes the previous step asked for and says what to write and what comes
//! next. The caller performs the reads and writes.
use vstd::prelude::*;

use crate::auth::{check_auth_version, credentials_match, verify_credentials, User, UserConfig};
use crate::consts::{
    AUTH_FAILURE, AUTH_SUCCESS, AUTH_VERSION, CMD_CONNECT, CMD_UDP_ASSOCIATE,
    METHOD_NO_ACCEPTABLE, METHOD_PASSWORD, REP_COMMAND_NOT_SUPPORTED, SOCKS_VERSION,
};
use crate::error::SocksError;
use crate::handler::{
    check_socks_version, choose_method, dispatch, error_reply, negotiate, reply_bytes,
    spec_error_code, Command, MethodChoice,
};
use crate::protocol::{
    append_bytes, decode_request, request_frame_len, RequestView, SocksRequest,
};

verus! {

/// Where a handshake stands: which bytes it waits for.
#[derive(Debug, Clone, Copy, PartialEq, Eq, Structural)]
pub enum HandshakePhase {
    /// The protocol version byte.
    Version,
    /// The number of offered methods.
    MethodCount,
    /// The offered method identifiers.
    Methods,
    /// The password sub-negotiation version and the username length.
    AuthHeader,
    Username,
    PasswordLen,
    Password,
    /// More bytes of the request frame.
    Request,
    /// The handshake has ended; it takes no more input.
    Finished,
}

/// The per-connection handshake.
pub struct Handshake {
    phase: HandshakePhase,
    want: usize,
    config: UserConfig,
    username: Vec<u8>,
    request: Vec<u8>,
}

pub struct HandshakeView {
    pub phase: HandshakePhase,
    pub want: nat,
    pub credential: Option<User>,
    pub username: Seq<u8>,
    pub request: Seq<u8>,
}

impl View for Handshake {
    type V = HandshakeView;

    closed spec fn view(&self) -> HandshakeView {
        HandshakeView {
            phase: self.phase,
            want: self.want as nat,
            credential: self.config.user,
            username: self.username@,
            request: self.request@,
        }
    }
}

/// What comes after a step.
#[derive(Debug)]
pub enum Next {
    /// Read exactly this many bytes and feed them in.
    Read(usize),
    /// The handshake succeeded with a CONNECT request.
    Connect(SocksRequest),
    /// The handshake succeeded with a UDP ASSOCIATE request.
    UdpAssociate(SocksRequest),
    /// The session ends with this error.
    Abort(SocksError),
}

pub enum NextView {
    Read(nat),
    Connect(RequestView),
    UdpAssociate(RequestView),
    Abort(SocksError),
}

/// The outcome of one step: a frame to write first, if any, then what comes next.
#[derive(Debug)]
pub struct Step {
    pub reply: Option<Vec<u8>>,
    pub next: Next,
}

pub struct StepView {
    pub reply: Option<Seq<u8>>,
    pub next: NextView,
}

impl View for Step {
    type V = StepView;

    open spec fn view(&self) -> StepView {
        StepView {
            reply: match &self.reply {
                Some(r) => Some(r@),
                None => None,
            },
            next: match &self.next {
                Next::Read(n) => NextView::Read(*n as nat),
                Next::Connect(q) => NextView::Connect(q@),
                Next::UdpAssociate(q) => NextView::UdpAssociate(q@),
                Next::Abort(e) => NextView::Abort(*e),
            },
        }
    }
}

/// The invariant of a handshake: each phase waits for as many bytes as its
/// frame field holds, and a request frame never outgrows its largest size.
pub open spec fn handshake_wf(st: HandshakeView) -> bool {
    match st.phase {
        HandshakePhase::Version | HandshakePhase::MethodCount | HandshakePhase::PasswordLen => st.want
            == 1,
        HandshakePhase::AuthHeader => st.want == 2,
        HandshakePhase::Request => st.want >= 1 && st.request.len() + st.want <= 262,
        HandshakePhase::Finished => st.want == 0,
        _ => st.want <= 255,
    }
}

pub open spec fn method_reply_bytes(c: MethodChoice) -> Seq<u8> {
    seq![SOCKS_VERSION, c.spec_method_byte()]
}

/// The reply frame the protocol defines for an error, if any.
pub open spec fn error_reply_bytes(e: SocksError) -> Option<Seq<u8>> {
    match spec_error_code(e) {
        Some(c) => Some(reply_bytes(c, 0)),
        None => None,
    }
}

pub open spec fn waiting(st: HandshakeView, phase: HandshakePhase, want: nat) -> HandshakeView {
    HandshakeView { phase, want, ..st }
}

pub open spec fn finished(st: HandshakeView) -> HandshakeView {
    HandshakeView { phase: HandshakePhase::Finished, want: 0, ..st }
}

pub open spec fn read(n: nat) -> StepView {
    StepView { reply: None, next: NextView::Read(n) }
}

/// A complete request frame: refused where its command is neither CONNECT
/// nor UDP ASSOCIATE, otherwise handed on.
pub open spec fn request_step(st: HandshakeView, buf: Seq<u8>) -> (HandshakeView, StepView) {
    match decode_request(buf) {
        Err(e) => (finished(st), StepView { reply: error_reply_bytes(e), next: NextView::Abort(e) }),
        Ok((q, _)) => if q.cmd == CMD_CONNECT {
            (finished(st), StepView { reply: None, next: NextView::Connect(q) })
        } else if q.cmd == CMD_UDP_ASSOCIATE {
            (finished(st), StepView { reply: None, next: NextView::UdpAssociate(q) })
        } else {
            (
                finished(st),
                StepView {
                    reply: error_reply_bytes(SocksError::UnsupportedCommand),
                    next: NextView::Abort(SocksError::UnsupportedCommand),
                },
            )
        },
    }
}

/// One step of the handshake on the bytes it asked for.
pub open spec fn handshake_step(st: HandshakeView, input: Seq<u8>) -> (HandshakeView, StepView) {
    match st.phase {
        HandshakePhase::Version => if input[0] == SOCKS_VERSION {
            (waiting(st, HandshakePhase::MethodCount, 1), read(1))
        } else {
            (
                finished(st),
                StepView { reply: None, next: NextView::Abort(SocksError::ProtocolVersionMismatch) },
            )
        },
        HandshakePhase::MethodCount => (
            waiting(st, HandshakePhase::Methods, input[0] as nat),
            read(input[0] as nat),
        ),
        HandshakePhase::Methods => {
            let c = choose_method(input, st.credential is Some);
            let reply = Some(method_reply_bytes(c));
            match c {
                MethodChoice::NoAuth => (
                    HandshakeView { phase: HandshakePhase::Request, want: 4, request: seq![], ..st },
                    StepView { reply, next: NextView::Read(4) },
                ),
                MethodChoice::Password => (
                    waiting(st, HandshakePhase::AuthHeader, 2),
                    StepView { reply, next: NextView::Read(2) },
                ),
                MethodChoice::NoAcceptable => (
                    finished(st),
                    StepView { reply, next: NextView::Abort(SocksError::NoAcceptableMethod) },
                ),
            }
        },
        HandshakePhase::AuthHeader => if input[0] == AUTH_VERSION {
            (waiting(st, HandshakePhase::Username, input[1] as nat), read(input[1] as nat))
        } else {
            (
                finished(st),
                StepView { reply: None, next: NextView::Abort(SocksError::UnsupportedAuthVersion) },
            )
        },
        HandshakePhase::Username => (
            HandshakeView { phase: HandshakePhase::PasswordLen, want: 1, username: input, ..st },
            read(1),
        ),
        HandshakePhase::PasswordLen => (
            waiting(st, HandshakePhase::Password, input[0] as nat),
            read(input[0] as nat),
        ),
        HandshakePhase::Password => if st.credential matches Some(u) && credentials_match(
            st.username,
            input,
            &u,
        ) {
            (
                HandshakeView { phase: HandshakePhase::Request, want: 4, request: seq![], ..st },
                StepView { reply: Some(seq![AUTH_VERSION, AUTH_SUCCESS]), next: NextView::Read(4) },
            )
        } else {
            (
                finished(st),
                StepView {
                    reply: Some(seq![AUTH_VERSION, AUTH_FAILURE]),
                    next: NextView::Abort(SocksError::AuthenticationFailed),
                },
            )
        },
        HandshakePhase::Request => {
            let buf = st.request + input;
            let grown = HandshakeView { request: buf, ..st };
            match request_frame_len(buf) {
                Err(e) => (
                    finished(grown),
                    StepView { reply: error_reply_bytes(e), next: NextView::Abort(e) },
                ),
                Ok(n) => if n > buf.len() {
                    (
                        HandshakeView {
                            phase: HandshakePhase::Request,
                            want: (n - buf.len()) as nat,
                            request: buf,
                            ..st
                        },
                        read((n - buf.len()) as nat),
                    )
                } else {
                    request_step(grown, buf)
                },
            }
        },
        HandshakePhase::Finished => (st, StepView { reply: None, next: NextView::Abort(SocksError::Truncated) }),
    }
}

fn read_step(n: usize) -> (r: Step)
    ensures
        r@ == read(n as nat),
{
    Step { reply: None, next: Next::Read(n) }
}

fn abort_step(reply: Option<Vec<u8>>, e: SocksError) -> (r: Step)
    ensures
        r@.reply == (match reply {
            Some(v) => Some(v@),
            None => None::<Seq<u8>>,
        }),
        r@.next == NextView::Abort(e),
{
    Step { reply, next: Next::Abort(e) }
}

impl Handshake {
    /// A handshake under `config`; it first waits for one byte, the version.
    pub fn new(config: UserConfig) -> (h: Handshake)
        ensures
            h@.phase == HandshakePhase::Version,
            h@.want == 1,
            h@.credential == config.user,
            h@.username == Seq::<u8>::empty(),
            h@.request == Seq::<u8>::empty(),
            handshake_wf(h@),
    {
        Handshake {
            phase: HandshakePhase::Version,
            want: 1,
            config,
            username: Vec::new(),
            request: Vec::new(),
        }
    }

    /// The number of bytes the next call of `feed` takes.
    pub fn wanted(&self) -> (n: usize)
        ensures
            n == self@.want,
    {
        self.want
    }

    /// Whether the handshake has ended.
    pub fn is_finished(&self) -> (b: bool)
        ensures
            b == (self@.phase == HandshakePhase::Finished),
    {
        self.phase == HandshakePhase::Finished
    }

    fn finish(&mut self)
        ensures
            final(self)@ == finished(old(self)@),
    {
        self.phase = HandshakePhase::Finished;
        self.want = 0;
    }

    fn wait_for(&mut self, phase: HandshakePhase, want: usize) -> (r: Step)
        ensures
            final(self)@ == waiting(old(self)@, phase, want as nat),
            r@ == read(want as nat),
    {
        self.phase = phase;
        self.want = want;
        read_step(want)
    }

    fn start_request(&mut self)
        ensures
            final(self)@ == (HandshakeView {
                phase: HandshakePhase::Request,
                want: 4,
                request: seq![],
                ..old(self)@
            }),
    {
        self.phase = HandshakePhase::Request;
        self.want = 4;
        self.request = Vec::new();
        assert(self@.request =~= seq![]);
    }

    fn on_request_frame(&mut self) -> (r: Step)
        ensures
            (final(self)@, r@) == request_step(old(self)@, old(self)@.request),
    {
        self.finish();
        match SocksRequest::decode(self.request.as_slice()) {
            Err(e) => abort_step(error_reply(e), e),
            Ok((q, _)) => match dispatch(q.cmd) {
                Ok(Command::Connect) => Step { reply: None, next: Next::Connect(q) },
                Ok(Command::UdpAssociate) => Step { reply: None, next: Next::UdpAssociate(q) },
                Err(e) => abort_step(error_reply(e), e),
            },
        }
    }

    /// Takes the bytes the last step asked for and performs one step.
    pub fn feed(&mut self, input: &[u8]) -> (r: Step)
        requires
            handshake_wf(old(self)@),
            old(self)@.phase != HandshakePhase::Finished,
            input@.len() == old(self)@.want,
        ensures
            (final(self)@, r@) == handshake_step(old(self)@, input@),
            handshake_wf(final(self)@),
    {
        match self.phase {
            HandshakePhase::Version => {
                match check_socks_version(input[0]) {
                    Ok(()) => self.wait_for(HandshakePhase::MethodCount, 1),
                    Err(e) => {
                        self.finish();
                        abort_step(None, e)
                    },
                }
            },
            HandshakePhase::MethodCount => self.wait_for(HandshakePhase::Methods, input[0] as usize),
            HandshakePhase::Methods => {
                let c = negotiate(input, &self.config);
                let reply = c.reply();
                match c.next_step() {
                    Ok(false) => {
                        self.start_request();
                        Step { reply: Some(reply), next: Next::Read(4) }
                    },
                    Ok(true) => {
                        self.wait_for(HandshakePhase::AuthHeader, 2);
                        Step { reply: Some(reply), next: Next::Read(2) }
                    },
                    Err(e) => {
                        self.finish();
                        abort_step(Some(reply), e)
                    },
                }
            },
            HandshakePhase::AuthHeader => {
                match check_auth_version(input[0]) {
                    Ok(()) => self.wait_for(HandshakePhase::Username, input[1] as usize),
                    Err(e) => {
                        self.finish();
                        abort_step(None, e)
                    },
                }
            },
            HandshakePhase::Username => {
                let mut name: Vec<u8> = Vec::new();
                append_bytes(&mut name, input);
                assert(name@ =~= input@);
                self.username = name;
                self.wait_for(HandshakePhase::PasswordLen, 1)
            },
            HandshakePhase::PasswordLen => self.wait_for(HandshakePhase::Password, input[0] as usize),
            HandshakePhase::Password => {
                let verdict = match &self.config.user {
                    Some(u) => Some(verify_credentials(self.username.as_slice(), input, u)),
                    None => None,
                };
                match verdict {
                    Some((reply, Ok(()))) => {
                        self.start_request();
                        Step { reply: Some(reply), next: Next::Read(4) }
                    },
                    Some((reply, Err(e))) => {
                        self.finish();
                        abort_step(Some(reply), e)
                    },
                    None => {
                        let mut reply: Vec<u8> = Vec::new();
                        reply.push(AUTH_VERSION);
                        reply.push(AUTH_FAILURE);
                        assert(reply@ =~= seq![AUTH_VERSION, AUTH_FAILURE]);
                        self.finish();
                        abort_step(Some(reply), SocksError::AuthenticationFailed)
                    },
                }
            },
            HandshakePhase::Request => {
                append_bytes(&mut self.request, input);
                match SocksRequest::bytes_needed(self.request.as_slice()) {
                    Err(e) => {
                        self.finish();
                        abort_step(error_reply(e), e)
                    },
                    Ok(n) => {
                        if n > self.request.len() {
                            let more = n - self.request.len();
                            self.wait_for(HandshakePhase::Request, more)
                        } else {
                            self.on_request_frame()
                        }
                    },
                }
            },
            HandshakePhase::Finished => abort_step(None, SocksError::Truncated),
        }
    }
}

/// A handshake hands a request on to the TCP relay only when its command is
/// CONNECT, and to the UDP relay only when it is UDP ASSOCIATE.
pub proof fn lemma_dispatch_by_command(st: HandshakeView, input: Seq<u8>)
    ensures
        handshake_step(st, input).1.next matches NextView::Connect(q) ==> q.cmd == CMD_CONNECT,
        handshake_step(st, input).1.next matches NextView::UdpAssociate(q) ==> q.cmd
            == CMD_UDP_ASSOCIATE,
{
}

/// A complete request frame with any other command is answered "command not
/// supported" and ends the session.
pub proof fn lemma_unsupported_command_refused(st: HandshakeView, input: Seq<u8>)
    requires
        st.phase == HandshakePhase::Request,
        request_frame_len(st.request + input) == Ok::<int, SocksError>(
            (st.request + input).len() as int,
        ),
        decode_request(st.request + input) is Ok,
        decode_request(st.request + input)->Ok_0.0.cmd != CMD_CONNECT,
        decode_request(st.request + input)->Ok_0.0.cmd != CMD_UDP_ASSOCIATE,
    ensures
        handshake_step(st, input).1 == (StepView {
            reply: Some(reply_bytes(REP_COMMAND_NOT_SUPPORTED, 0)),
            next: NextView::Abort(SocksError::UnsupportedCommand),
        }),
        handshake_step(st, input).0.phase == HandshakePhase::Finished,
{
}

/// A server with a credential answers an offer without the password method
/// with "no acceptable methods" and ends the session, reading nothing more.
pub proof fn lemma_no_acceptable_method(st: HandshakeView, methods: Seq<u8>)
    requires
        st.phase == HandshakePhase::Methods,
        st.credential is Some,
        !methods.contains(METHOD_PASSWORD),
    ensures
        handshake_step(st, methods).1 == (StepView {
            reply: Some(seq![SOCKS_VERSION, METHOD_NO_ACCEPTABLE]),
            next: NextView::Abort(SocksError::NoAcceptableMethod),
        }),
        handshake_step(st, methods).0.phase == HandshakePhase::Finished,
{
}

/// A wrong password sub-negotiation version ends the session with nothing
/// written.
pub proof fn lemma_wrong_auth_version(st: HandshakeView, input: Seq<u8>)
    requires
        st.phase == HandshakePhase::AuthHeader,
        input[0] != AUTH_VERSION,
    ensures
        handshake_step(st, input).1 == (StepView {
            reply: None,
            next: NextView::Abort(SocksError::UnsupportedAuthVersion),
        }),
{
}

/// The password verdict is always written: a matching credential goes on to
/// the request, any mismatch ends the session.
pub proof fn lemma_password_verdict(st: HandshakeView, u: User, password: Seq<u8>)
    requires
        st.phase == HandshakePhase::Password,
        st.credential == Some(u),
    ensures
        credentials_match(st.username, password, &u) ==> handshake_step(st, password).1 == (StepView {
            reply: Some(seq![AUTH_VERSION, AUTH_SUCCESS]),
            next: NextView::Read(4),
        }),
        !credentials_match(st.username, password, &u) ==> handshake_step(st, password).1 == (StepView {
            reply: Some(seq![AUTH_VERSION, AUTH_FAILURE]),
            next: NextView::Abort(SocksError::AuthenticationFailed),
        }),
{
}

} // verus!
