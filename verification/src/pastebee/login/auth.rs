//! Session state kept in a `password` cookie, and password checks against a
//! decimal `DefaultHasher` digest.

use std::collections::hash_map::DefaultHasher;
use std::hash::{BuildHasher, BuildHasherDefault};
use vstd::prelude::*;
use crate::decimal::{decimal, u64_to_decimal};
use super::password::Password;

verus! {

/// Why a request or a login attempt is refused.
#[derive(Debug, Clone, Copy, PartialEq, Eq, Structural)]
pub enum AuthError {
    WrongPassword,
    NoPassword,
}

impl AuthError {
    /// The status a refusal is answered with: 401 for a wrong password, 500
    /// when the stored password cannot be read.
    pub fn status(&self) -> (code: u16)
        ensures
            code == match self {
                AuthError::WrongPassword => 401u16,
                AuthError::NoPassword => 500u16,
            },
    {
        match self {
            AuthError::WrongPassword => 401,
            AuthError::NoPassword => 500,
        }
    }
}

/// The session state of a request, known for every request.
#[derive(Clone, Copy)]
pub struct AuthState {
    pub valid: bool,
}

/// A request admitted to routes that need a session.
#[derive(Clone, Copy)]
pub struct Auth {
    pub valid: bool,
}

/// Whether the text of `s` is exactly the text of `t`.
fn same_text(s: &str, t: &str) -> (b: bool)
    ensures
        b == (s@ == t@),
{
    s.to_owned() == t.to_owned()
}

impl AuthState {
    /// The session state of a request by the value of its `password` cookie
    /// (`None`: no cookie): valid exactly when the value is `valid`.
    pub fn from_request(cookie: Option<&str>) -> (s: AuthState)
        ensures
            s.valid == (cookie.deep_view() == Some("valid"@)),
    {
        match cookie {
            None => AuthState { valid: false },
            Some(value) => AuthState { valid: same_text(value, "valid") },
        }
    }
}

impl Auth {
    /// Admits a request that has a session, by the value of its `password`
    /// cookie (`None`: no cookie): only the value `valid` is admitted, and
    /// any other request is refused with `WrongPassword` (status 401).
    pub fn from_request(cookie: Option<&str>) -> (r: Result<Auth, AuthError>)
        ensures
            r is Ok <==> cookie.deep_view() == Some("valid"@),
            r matches Ok(a) ==> a.valid,
            r matches Err(e) ==> e == AuthError::WrongPassword,
    {
        let authed = AuthState::from_request(cookie);
        if authed.valid {
            Ok(Auth { valid: true })
        } else {
            Err(AuthError::WrongPassword)
        }
    }
}

/// The value that `DefaultHasher::new()`, fed the password text as `Hash`
/// for `String` feeds it, finishes with.
pub uninterp spec fn default_hash(password: Seq<char>) -> u64;

/// Hashes `password` with a fresh `DefaultHasher` through
/// `BuildHasherDefault::<DefaultHasher>::hash_one` (as `DefaultHasher::new`,
/// `Hash::hash`, `finish` do). Claimed: the digest depends on the password's
/// text alone; the standard library fixes the algorithm for a given release
/// only, and that is left unsaid.
#[verifier::external_body]
fn password_digest(password: &Password) -> (h: u64)
    ensures
        h == default_hash(password.0@),
{
    BuildHasherDefault::<DefaultHasher>::default().hash_one(password)
}

/// Checks `received` against the stored password text (`None`: it could not
/// be read): the stored text must be the decimal notation of the password's
/// `DefaultHasher` digest.
pub fn validate_password(received: Password, stored: Option<String>) -> (r: Result<bool, AuthError>)
    ensures
        stored is None ==> r == Err::<bool, AuthError>(AuthError::NoPassword),
        stored matches Some(s) ==> r == Ok::<bool, AuthError>(
            s@ == decimal(default_hash(received.0@) as nat),
        ),
{
    match stored {
        None => Err(AuthError::NoPassword),
        Some(password) => {
            let hash = u64_to_decimal(password_digest(&received));
            Ok(hash == password)
        },
    }
}

} // verus!
