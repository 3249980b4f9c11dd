//! An earlier login section that keeps the session in a `password` cookie and
//! checks passwords against a stored hash of another kind.

pub mod auth;
pub mod password;

use vstd::prelude::*;
use self::auth::AuthState;

verus! {

/// The page served at `/login`: the start page for a visitor with a session,
/// the login form otherwise, both under `static_path`.
pub fn index(auth: AuthState, static_path: &str) -> (path: String)
    ensures
        path@ == static_path@ + (if auth.valid {
            "/static/index.html"@
        } else {
            "/static/login.html"@
        }),
{
    let mut path = String::from_str(static_path);
    if auth.valid {
        path.append("/static/index.html");
    } else {
        path.append("/static/login.html");
    }
    path
}

} // verus!
