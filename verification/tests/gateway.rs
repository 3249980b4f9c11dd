use argon2::{Argon2, PasswordHasher};
use pastebee::pastebee::gateway::auth::{
    validate_password, Auth, AuthError, AuthState, LoginResponse, LogoutResponse,
};
use pastebee::pastebee::gateway::password::read_password;
use pastebee::pastebee::gateway::{index, login, logout};

const SALT: &str = "c2FsdHNhbHRzYWx0";

fn phc(password: &str) -> String {
    Argon2::default().hash_password(password.as_bytes(), SALT).unwrap().to_string()
}

fn stored(password: &str) -> Option<(String, String)> {
    Some((SALT.to_string(), phc(password)))
}

#[test]
fn session_cookie() {
    assert!(matches!(Auth::from_request(Some("valid")), Ok(Auth { valid: true })));
    assert_eq!(Auth::from_request(Some("invalid")).err().map(|e| e.status()), Some(401));
    assert!(Auth::from_request(Some("Valid")).is_err());
    assert!(Auth::from_request(None).is_err());
    assert!(matches!(Auth::from_request(None), Err(AuthError::NotAuthed)));
    assert!(AuthState::from_request(Some("valid")).valid);
    assert!(!AuthState::from_request(Some("other")).valid);
    assert!(!AuthState::from_request(None).valid);
}

#[test]
fn password_checks() {
    let ok = validate_password("hunter2", stored("hunter2"));
    assert!(matches!(ok, LoginResponse::ValidPassword("authenticated :D")));
    assert_eq!(ok.status(), 200);
    let wrong = validate_password("hunter3", stored("hunter2"));
    assert!(matches!(wrong, LoginResponse::WrongPassword("wrong password")));
    assert_eq!(wrong.status(), 401);
    let missing = validate_password("hunter2", None);
    assert!(matches!(missing, LoginResponse::NoPassword("someone fucked up")));
    assert_eq!(missing.status(), 500);
    let bad_salt = validate_password("hunter2", Some(("!!".to_string(), phc("hunter2"))));
    assert!(matches!(bad_salt, LoginResponse::NoPassword("how")));
    assert_eq!(bad_salt.message(), "how");
}

#[test]
fn stored_hash_fills_the_buffer() {
    assert_eq!(phc("hunter2").len(), 90);
}

#[test]
fn login_flow() {
    let authed = login(AuthState { valid: true }, "anything", None);
    assert!(matches!(authed.response, LoginResponse::AlreadyAuthed("already logged in")));
    assert_eq!(authed.response.status(), 200);
    assert!(authed.set_cookie.is_none());

    let good = login(AuthState { valid: false }, "hunter2", stored("hunter2"));
    assert!(matches!(good.response, LoginResponse::ValidPassword(_)));
    let cookie = good.set_cookie.expect("session cookie");
    assert_eq!(cookie.name, "Authorization");
    assert_eq!(cookie.value, "valid");
    // The cookie that was set opens a session on the next request.
    assert!(AuthState::from_request(Some(cookie.value)).valid);

    let bad = login(AuthState { valid: false }, "nope", stored("hunter2"));
    assert!(matches!(bad.response, LoginResponse::WrongPassword(_)));
    assert!(bad.set_cookie.is_none());

    let unreadable = login(AuthState { valid: false }, "hunter2", None);
    assert!(matches!(unreadable.response, LoginResponse::NoPassword(_)));
    assert!(unreadable.set_cookie.is_none());
}

#[test]
fn logout_flow() {
    let out = logout(AuthState { valid: true });
    assert!(matches!(out.response, LogoutResponse::LoggedOut("successfully logged out")));
    assert_eq!(out.response.status(), 200);
    assert_eq!(out.remove_cookie, Some("Authorization"));
    // Without the cookie there is no session.
    assert!(!AuthState::from_request(None).valid);
    let none = logout(AuthState { valid: false });
    assert!(matches!(none.response, LogoutResponse::NotLoggedIn("not even logged in")));
    assert_eq!(none.response.status(), 400);
    assert_eq!(none.response.message(), "not even logged in");
    assert_eq!(none.remove_cookie, None);
}

#[test]
fn gateway_pages() {
    assert_eq!(index(AuthState { valid: true }, "/d"), "/d/static/auth/logout.html");
    assert_eq!(index(AuthState { valid: false }, "/d"), "/d/static/auth/login.html");
}

#[test]
fn credentials_buffer() {
    let hash = phc("hunter2");
    let mut buf = Vec::new();
    buf.extend_from_slice(SALT.as_bytes());
    buf.push(b'\n');
    buf.extend_from_slice(hash.as_bytes());
    assert_eq!(buf.len(), 107);
    let (salt, stored_hash) = read_password(&buf).expect("credentials");
    assert_eq!(salt, SALT);
    assert_eq!(stored_hash, hash);
    assert!(matches!(
        validate_password("hunter2", Some((salt, stored_hash))),
        LoginResponse::ValidPassword(_)
    ));

    let mut short = b"abc".to_vec();
    short.resize(107, 0);
    let (salt, rest) = read_password(&short).expect("zero bytes are UTF-8");
    assert_eq!(salt, "abc\0\0\0\0\0\0\0\0\0\0\0\0\0");
    assert_eq!(rest.len(), 90);

    let mut bad = vec![b'a'; 107];
    bad[3] = 0xff;
    assert!(read_password(&bad).is_none());
    let mut bad_hash = vec![b'a'; 107];
    bad_hash[100] = 0xc3;
    assert!(read_password(&bad_hash).is_none());
    let mut skipped = vec![b'a'; 107];
    skipped[16] = 0xff;
    assert!(read_password(&skipped).is_some());
}
