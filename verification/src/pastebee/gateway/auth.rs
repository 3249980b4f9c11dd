//! Session cookies and password checking for the login gateway.

use argon2::{Argon2, PasswordHasher};
use vstd::prelude::*;

verus! {

/// Why a request is not authenticated.
#[derive(Debug, Clone, Copy, PartialEq, Eq, Structural)]
pub enum AuthError {
    NotAuthed,
}

impl AuthError {
    /// The status a refused request is answered with: 401.
    pub fn status(&self) -> (code: u16)
        ensures
            code == 401,
    {
        401
    }
}

/// The answer to a login attempt, each carrying the message that the `login`
/// template shows.
pub enum LoginResponse {
    NoPassword(&'static str),
    WrongPassword(&'static str),
    ValidPassword(&'static str),
    AlreadyAuthed(&'static str),
}

/// The status each login answer is sent with.
pub open spec fn login_status(r: LoginResponse) -> u16 {
    match r {
        LoginResponse::NoPassword(_) => 500,
        LoginResponse::WrongPassword(_) => 401,
        LoginResponse::ValidPassword(_) => 200,
        LoginResponse::AlreadyAuthed(_) => 200,
    }
}

/// The message a login answer carries.
pub open spec fn login_message(r: LoginResponse) -> Seq<char> {
    match r {
        LoginResponse::NoPassword(m) => m@,
        LoginResponse::WrongPassword(m) => m@,
        LoginResponse::ValidPassword(m) => m@,
        LoginResponse::AlreadyAuthed(m) => m@,
    }
}

impl LoginResponse {
    /// The HTTP status of this answer.
    pub fn status(&self) -> (code: u16)
        ensures
            code == login_status(*self),
    {
        match self {
            LoginResponse::NoPassword(_) => 500,
            LoginResponse::WrongPassword(_) => 401,
            LoginResponse::ValidPassword(_) => 200,
            LoginResponse::AlreadyAuthed(_) => 200,
        }
    }

    /// The message shown in the `login` template.
    pub fn message(&self) -> (m: &'static str)
        ensures
            m@ == login_message(*self),
    {
        match self {
            LoginResponse::NoPassword(m) => m,
            LoginResponse::WrongPassword(m) => m,
            LoginResponse::ValidPassword(m) => m,
            LoginResponse::AlreadyAuthed(m) => m,
        }
    }
}

/// The answer to a logout request, carrying the message that the `logout`
/// template shows.
pub enum LogoutResponse {
    LoggedOut(&'static str),
    NotLoggedIn(&'static str),
}

impl LogoutResponse {
    /// The HTTP status of this answer: 200 after a logout, 400 without a session.
    pub fn status(&self) -> (code: u16)
        ensures
            code == match self {
                LogoutResponse::LoggedOut(_) => 200u16,
                LogoutResponse::NotLoggedIn(_) => 400u16,
            },
    {
        match self {
            LogoutResponse::LoggedOut(_) => 200,
            LogoutResponse::NotLoggedIn(_) => 400,
        }
    }

    /// The message shown in the `logout` template.
    pub fn message(&self) -> (m: &'static str)
        ensures
            m == match self {
                LogoutResponse::LoggedOut(m) => *m,
                LogoutResponse::NotLoggedIn(m) => *m,
            },
    {
        match self {
            LogoutResponse::LoggedOut(m) => m,
            LogoutResponse::NotLoggedIn(m) => m,
        }
    }
}

/// The session state of a request, known for every request.
#[derive(Clone, Copy)]
pub struct AuthState {
    pub valid: bool,
}

/// A request that carries a valid session; routes that need one refuse others.
#[derive(Clone, Copy)]
pub struct Auth {
    pub valid: bool,
}

/// The name of the private session cookie.
pub open spec fn auth_cookie_name() -> Seq<char> {
    "Authorization"@
}

/// The value the session cookie holds once a login succeeded.
pub open spec fn auth_cookie_value() -> Seq<char> {
    "valid"@
}

/// A session cookie with the text `cookie` (`None`: no such cookie) opens a session.
pub open spec fn cookie_authenticates(cookie: Option<Seq<char>>) -> bool {
    cookie == Some(auth_cookie_value())
}

/// The value the login gateway writes into the session cookie.
pub fn auth_cookie_valid() -> (v: &'static str)
    ensures
        v@ == auth_cookie_value(),
{
    "valid"
}

/// The session cookie's name.
pub fn auth_cookie() -> (n: &'static str)
    ensures
        n@ == auth_cookie_name(),
{
    "Authorization"
}

/// Whether the text of `s` is exactly the text of `t`.
fn same_text(s: &str, t: &str) -> (b: bool)
    ensures
        b == (s@ == t@),
{
    s.to_owned() == t.to_owned()
}

impl Auth {
    /// Authenticates a request by the value of its session cookie
    /// (`None`: no cookie): only the value `valid` succeeds.
    pub fn from_request(cookie: Option<&str>) -> (r: Result<Auth, AuthError>)
        ensures
            r is Ok <==> cookie_authenticates(cookie.deep_view()),
            r matches Ok(a) ==> a.valid,
            r matches Err(e) ==> e == AuthError::NotAuthed,
    {
        match cookie {
            None => Err(AuthError::NotAuthed),
            Some(value) => {
                if same_text(value, auth_cookie_valid()) {
                    Ok(Auth { valid: true })
                } else {
                    Err(AuthError::NotAuthed)
                }
            },
        }
    }
}

impl AuthState {
    /// The session state of a request: valid exactly when `Auth` succeeds.
    pub fn from_request(cookie: Option<&str>) -> (s: AuthState)
        ensures
            s.valid == cookie_authenticates(cookie.deep_view()),
    {
        let authed = Auth::from_request(cookie);
        if authed.is_ok() {
            AuthState { valid: true }
        } else {
            AuthState { valid: false }
        }
    }
}

/// The PHC string that Argon2 with its default parameters (Argon2id, version
/// 0x13, `Params::default()`) produces for `password` and the Base64 salt
/// `salt`, or `None` where the call fails.
pub uninterp spec fn argon2_phc(password: Seq<char>, salt: Seq<char>) -> Option<Seq<char>>;

/// Hashes the UTF-8 bytes of `password` with `Argon2::default().hash_password`
/// under `salt` and formats the result as a PHC string. Claimed: the result is
/// `argon2_phc` of the two texts; which inputs fail and what the string holds
/// is left to the name.
#[verifier::external_body]
fn argon2_hash(password: &str, salt: &str) -> (r: Option<String>)
    ensures
        r.deep_view() == argon2_phc(password@, salt@),
{
    match Argon2::default().hash_password(password.as_bytes(), salt) {
        Ok(hash) => Some(hash.to_string()),
        Err(_) => None,
    }
}

/// The answer to the password `received`, given the stored credentials
/// (`None`: they could not be read) as salt and PHC hash.
pub open spec fn password_verdict(
    received: Seq<char>,
    stored: Option<(Seq<char>, Seq<char>)>,
) -> (LoginKind, Seq<char>) {
    match stored {
        None => (LoginKind::NoPassword, "someone fucked up"@),
        Some((salt, hash)) => match argon2_phc(received, salt) {
            None => (LoginKind::NoPassword, "how"@),
            Some(h) => if h == hash {
                (LoginKind::ValidPassword, "authenticated :D"@)
            } else {
                (LoginKind::WrongPassword, "wrong password"@)
            },
        },
    }
}

/// A password is accepted exactly when Argon2 under the stored salt reproduces
/// the stored hash, whatever the password's length or content; a password
/// whose hash differs is a wrong password, and only a failing hash computation
/// or unreadable credentials report a missing password.
pub proof fn lemma_verdict_follows_hash(
    password: Seq<char>,
    salt: Seq<char>,
    stored_hash: Seq<char>,
)
    ensures
        argon2_phc(password, salt) == Some(stored_hash) ==> password_verdict(
            password,
            Some((salt, stored_hash)),
        ) == (LoginKind::ValidPassword, "authenticated :D"@),
        (argon2_phc(password, salt) matches Some(h) && h != stored_hash) ==> password_verdict(
            password,
            Some((salt, stored_hash)),
        ) == (LoginKind::WrongPassword, "wrong password"@),
        argon2_phc(password, salt) is None ==> password_verdict(
            password,
            Some((salt, stored_hash)),
        ).0 == LoginKind::NoPassword,
        password_verdict(password, None).0 == LoginKind::NoPassword,
{
}

/// The variant of a login answer.
pub enum LoginKind {
    NoPassword,
    WrongPassword,
    ValidPassword,
    AlreadyAuthed,
}

/// The variant of `r`.
pub open spec fn login_kind(r: LoginResponse) -> LoginKind {
    match r {
        LoginResponse::NoPassword(_) => LoginKind::NoPassword,
        LoginResponse::WrongPassword(_) => LoginKind::WrongPassword,
        LoginResponse::ValidPassword(_) => LoginKind::ValidPassword,
        LoginResponse::AlreadyAuthed(_) => LoginKind::AlreadyAuthed,
    }
}

/// Checks the password `received` against the stored salt and Argon2 hash
/// (`None`: the credentials could not be read): valid exactly when hashing
/// `received` under the stored salt gives the stored hash.
pub fn validate_password(received: &str, stored: Option<(String, String)>) -> (r: LoginResponse)
    ensures
        (login_kind(r), login_message(r)) == password_verdict(received@, stored.deep_view()),
        stored is None ==> (r matches LoginResponse::NoPassword(m) && m@ == "someone fucked up"@),
        stored matches Some((salt, hash)) ==> (r matches LoginResponse::ValidPassword(_)
            <==> argon2_phc(received@, salt@) == Some(hash@)),
        stored matches Some((salt, hash)) ==> (argon2_phc(received@, salt@) matches Some(h) && h
            != hash@ <==> r matches LoginResponse::WrongPassword(_)),
        stored matches Some((salt, hash)) ==> (argon2_phc(received@, salt@) is None
            <==> r matches LoginResponse::NoPassword(_)),
{
    match stored {
        None => LoginResponse::NoPassword("someone fucked up"),
        Some((salt, password)) => {
            let hash = argon2_hash(received, salt.as_str());
            match hash {
                None => LoginResponse::NoPassword("how"),
                Some(hash) => {
                    if hash == password {
                        LoginResponse::ValidPassword("authenticated :D")
                    } else {
                        LoginResponse::WrongPassword("wrong password")
                    }
                },
            }
        },
    }
}

} // verus!
