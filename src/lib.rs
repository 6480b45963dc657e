//! A SOCKS5 proxy engine: the wire codec, method negotiation, password
//! authentication, the per-connection handshake as a state machine, the
//! reply codes owed for each outcome, and the UDP relay session state.
//! Sockets, timers and the relay loops belong to the caller, which performs
//! the reads and writes these functions ask for.
pub mod consts;
pub mod error;
pub mod protocol;
pub mod auth;
pub mod handler;
pub mod udp;
pub mod session;
