//! The username/password sub-negotiation.
use vstd::prelude::*;
use vstd::utf8::encode_utf8;

use crate::consts::{AUTH_FAILURE, AUTH_SUCCESS, AUTH_VERSION};
use crate::error::SocksError;
use crate::protocol::bytes_eq;

verus! {

/// The one credential a server may be configured with.
#[derive(Debug, Clone)]
pub struct User {
    pub username: String,
    pub password: String,
}

/// The configuration every session reads: an optional credential, and the
/// number of seconds an outbound connection attempt may take.
#[derive(Debug, Clone)]
pub struct UserConfig {
    pub user: Option<User>,
    pub timeout: u8,
}

/// The wire bytes of the configured username and password match those offered.
pub open spec fn credentials_match(username: Seq<u8>, password: Seq<u8>, user: &User) -> bool {
    username == encode_utf8(user.username@) && password == encode_utf8(user.password@)
}

/// Checks the version byte that opens a password request.
pub fn check_auth_version(ver: u8) -> (r: Result<(), SocksError>)
    ensures
        r is Ok <==> ver == AUTH_VERSION,
        r is Err ==> r == Err::<(), SocksError>(SocksError::UnsupportedAuthVersion),
{
    if ver == AUTH_VERSION {
        Ok(())
    } else {
        Err(SocksError::UnsupportedAuthVersion)
    }
}

/// Judges the offered credential against the configured one. The reply frame
/// is sent whatever the verdict, before a failure ends the session.
pub fn verify_credentials(username: &[u8], password: &[u8], user: &User) -> (r: (
    Vec<u8>,
    Result<(), SocksError>,
))
    ensures
        credentials_match(username@, password@, user) ==> r.0@ == seq![AUTH_VERSION, AUTH_SUCCESS]
            && r.1 is Ok,
        !credentials_match(username@, password@, user) ==> r.0@ == seq![AUTH_VERSION, AUTH_FAILURE]
            && r.1 == Err::<(), SocksError>(SocksError::AuthenticationFailed),
{
    let ok = bytes_eq(username, user.username.as_str().as_bytes()) && bytes_eq(
        password,
        user.password.as_str().as_bytes(),
    );
    let mut reply: Vec<u8> = Vec::new();
    reply.push(AUTH_VERSION);
    if ok {
        reply.push(AUTH_SUCCESS);
        assert(reply@ =~= seq![AUTH_VERSION, AUTH_SUCCESS]);
        (reply, Ok(()))
    } else {
        reply.push(AUTH_FAILURE);
        assert(reply@ =~= seq![AUTH_VERSION, AUTH_FAILURE]);
        (reply, Err(SocksError::AuthenticationFailed))
    }
}

} // verus!
