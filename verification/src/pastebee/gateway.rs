//! The login gateway: the login and logout pages and the decisions behind them.

pub mod auth;
pub mod password;

use vstd::prelude::*;
use super::filepath;
use self::auth::{
    argon2_phc, auth_cookie, auth_cookie_name, auth_cookie_valid, auth_cookie_value, cookie_authenticates,
    login_kind, login_message, password_verdict, validate_password, AuthState, LoginKind,
    LoginResponse, LogoutResponse,
};

verus! {

/// The page served at `/login` and `/logout`: the logout form for a logged-in
/// visitor, the login form otherwise.
pub fn index(auth: AuthState, current_dir: &str) -> (path: String)
    ensures
        path@ == current_dir@ + (if auth.valid {
            "/static/auth/logout.html"@
        } else {
            "/static/auth/login.html"@
        }),
{
    if auth.valid {
        filepath(current_dir, "/static/auth/logout.html")
    } else {
        filepath(current_dir, "/static/auth/login.html")
    }
}

/// A private cookie to store on the client: its name and value.
pub struct SetCookie {
    pub name: &'static str,
    pub value: &'static str,
}

/// The answer to a login attempt and the cookie it sets, if any.
pub struct LoginOutcome {
    pub response: LoginResponse,
    pub set_cookie: Option<SetCookie>,
}

/// A login attempt with the password `password`, from a visitor whose session
/// state is `auth`, against the stored credentials `stored` (read only when
/// the visitor has no session; `None`: they could not be read).
/// An open session is answered as such; otherwise the password is checked and
/// a successful check sets the session cookie.
pub fn login(auth: AuthState, password: &str, stored: Option<(String, String)>) -> (r:
    LoginOutcome)
    ensures
        auth.valid ==> login_kind(r.response) == LoginKind::AlreadyAuthed && login_message(
            r.response,
        ) == "already logged in"@ && r.set_cookie is None,
        !auth.valid ==> (login_kind(r.response), login_message(r.response)) == password_verdict(
            password@,
            stored.deep_view(),
        ),
        r.set_cookie is Some <==> login_kind(r.response) == LoginKind::ValidPassword,
        r.set_cookie is Some <==> !auth.valid && (stored matches Some((salt, hash)) && argon2_phc(
            password@,
            salt@,
        ) == Some(hash@)),
        r.set_cookie matches Some(c) ==> c.name@ == auth_cookie_name() && c.value@
            == auth_cookie_value(),
{
    if auth.valid {
        return LoginOutcome {
            response: LoginResponse::AlreadyAuthed("already logged in"),
            set_cookie: None,
        };
    }
    let valid = validate_password(password, stored);
    match valid {
        LoginResponse::ValidPassword(_) => LoginOutcome {
            response: valid,
            set_cookie: Some(SetCookie { name: auth_cookie(), value: auth_cookie_valid() }),
        },
        _ => LoginOutcome { response: valid, set_cookie: None },
    }
}

/// The answer to a logout request and the cookie it removes, if any.
pub struct LogoutOutcome {
    pub response: LogoutResponse,
    pub remove_cookie: Option<&'static str>,
}

/// A logout request from a visitor whose session state is `auth`: an open
/// session is closed by removing the session cookie; otherwise nothing changes.
pub fn logout(auth: AuthState) -> (r: LogoutOutcome)
    ensures
        auth.valid ==> (r.response matches LogoutResponse::LoggedOut(m) && m@
            == "successfully logged out"@),
        !auth.valid ==> (r.response matches LogoutResponse::NotLoggedIn(m) && m@
            == "not even logged in"@),
        r.remove_cookie is Some <==> auth.valid,
        r.remove_cookie matches Some(n) ==> n@ == auth_cookie_name(),
{
    if auth.valid {
        LogoutOutcome {
            response: LogoutResponse::LoggedOut("successfully logged out"),
            remove_cookie: Some(auth_cookie()),
        }
    } else {
        LogoutOutcome { response: LogoutResponse::NotLoggedIn("not even logged in"), remove_cookie: None }
    }
}

/// The cookie value that a successful login stores opens a session on later
/// requests, and a request without the cookie (as after a logout) has none.
pub proof fn lemma_login_cookie_opens_session()
    ensures
        cookie_authenticates(Some(auth_cookie_value())),
        !cookie_authenticates(None),
{
}

} // verus!
