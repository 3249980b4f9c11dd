use pastebee::pastebin::embed_id::{EmbedId, EmbedIdError};
use pastebee::pastebin::{index, Auth, AuthError};

#[test]
fn paste_ids_are_alphanumeric() {
    assert!(EmbedId::from_param("abc123XYZ").is_ok());
    assert_eq!(EmbedId::from_param("ab-c").err(), Some("ab-c"));
    assert_eq!(EmbedId::from_param("a_b").err(), Some("a_b"));
    assert_eq!(EmbedId::from_param("../etc").err(), Some("../etc"));
    assert!(EmbedId::from_param("").is_ok());
    assert!(EmbedId::from_value("Q9").is_ok());
    assert_eq!(EmbedId::from_value("q.9").err(), Some(EmbedIdError::InvalidChars));
    assert_eq!(EmbedIdError::InvalidChars.message(), "fuck you");
}

#[test]
fn file_path_is_under_upload() {
    let id = EmbedId::from_param("abc").ok().expect("valid id");
    assert_eq!(id.file_path("/srv/pastebin"), "/srv/pastebin/upload/abc");
    assert_eq!(id.as_str(), "abc");
}

#[test]
fn generated_paste_ids() {
    let id = EmbedId::new(3);
    assert_eq!(id.as_str().chars().count(), 3);
    assert!(id.as_str().chars().all(|c| c.is_ascii_alphanumeric()));
    let text = id.as_str().to_string();
    assert!(EmbedId::from_param(&text).is_ok());
    let drawn = EmbedId::from_draws(&vec![0, 10, 36, 61, 62, 125]);
    assert_eq!(drawn.as_str(), "0Aaz01");
    assert_eq!(EmbedId::new(0).as_str(), "");
}

#[test]
fn upload_password_check() {
    assert!(matches!(Auth::from_request(Some("pw".to_string()), Some("pw")), Ok(Auth(true))));
    assert_eq!(
        Auth::from_request(Some("pw".to_string()), Some("px")).err(),
        Some(AuthError::WrongPassword)
    );
    assert_eq!(Auth::from_request(Some("pw".to_string()), None).err(), Some(AuthError::WrongPassword));
    assert!(Auth::from_request(Some(String::new()), None).is_ok());
    assert_eq!(Auth::from_request(None, Some("pw")).err(), Some(AuthError::NoPassword));
    assert_eq!(AuthError::WrongPassword.status(), 403);
    assert_eq!(AuthError::NoPassword.status(), 500);
}

#[test]
fn usage_page() {
    let usage = index();
    assert!(usage.contains("USAGE"));
    assert!(usage.contains("GET /<id>"));
    assert!(usage.starts_with("\n\tUSAGE\n"));
}
