use std::collections::hash_map::DefaultHasher;
use std::hash::{Hash, Hasher};

use pastebee::pastebee::login::auth::{validate_password, Auth, AuthError, AuthState};
use pastebee::pastebee::login::index;
use pastebee::pastebee::login::password::{Password, PasswordError};

fn digest(password: &str) -> String {
    let mut hasher = DefaultHasher::new();
    Password(password.to_string()).hash(&mut hasher);
    hasher.finish().to_string()
}

#[test]
fn password_cookie_state() {
    assert!(AuthState::from_request(Some("valid")).valid);
    assert!(!AuthState::from_request(Some("nope")).valid);
    assert!(!AuthState::from_request(None).valid);
}

#[test]
fn guard_admits_only_sessions() {
    assert!(matches!(Auth::from_request(Some("valid")), Ok(Auth { valid: true })));
    for cookie in [Some("nope"), Some("Valid"), None] {
        let refused = Auth::from_request(cookie).err();
        assert_eq!(refused, Some(AuthError::WrongPassword));
        assert_eq!(refused.map(|e| e.status()), Some(401));
    }
}

#[test]
fn digest_checks() {
    let stored = digest("hunter2");
    assert_eq!(validate_password(Password("hunter2".to_string()), Some(stored.clone())), Ok(true));
    assert_eq!(validate_password(Password("hunter3".to_string()), Some(stored)), Ok(false));
    assert_eq!(validate_password(Password("x".to_string()), None), Err(AuthError::NoPassword));
    assert_eq!(AuthError::NoPassword.status(), 500);
    assert_eq!(AuthError::WrongPassword.status(), 401);
}

#[test]
fn password_fields() {
    assert_eq!(Password::from_value("pä ss").0, "pä ss");
    assert_eq!(Password::from_data("pä ss".as_bytes().to_vec()).ok().map(|p| p.0), Some("pä ss".to_string()));
    assert_eq!(Password::from_data(vec![0x66, 0xff]).err(), Some(PasswordError::NotUtf8));
    assert_eq!(PasswordError::NotUtf8.message(), "that is not valid utf-8");
}

#[test]
fn login_pages() {
    assert_eq!(index(AuthState { valid: true }, "/s"), "/s/static/index.html");
    assert_eq!(index(AuthState { valid: false }, "/s"), "/s/static/login.html");
}
