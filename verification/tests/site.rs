use pastebee::pastebee::content;
use pastebee::pastebee::gateway::auth::AuthState;
use pastebee::pastebee::{favicon, filepath, index, retrieve_generic, retrieve_video, Id};

#[test]
fn path_ids() {
    let id = Id::from_param("a-b_1").ok().expect("valid id");
    assert_eq!(id.as_str(), "a-b_1");
    assert_eq!(Id::from_param("a%2Fb").err(), Some("a%2Fb"));
    assert_eq!(Id::from_param("a b").err(), Some("a b"));
}

#[test]
fn file_paths() {
    assert_eq!(filepath("/srv/bee", "/static/x.html"), "/srv/bee/static/x.html");
    assert_eq!(filepath("", ""), "");
    assert_eq!(favicon("/srv"), "/srv/favicon.ico");
    assert_eq!(retrieve_video("/srv", "clip"), "/srv/assets/clip.html");
}

#[test]
fn pages_by_session() {
    let yes = AuthState { valid: true };
    let no = AuthState { valid: false };
    assert_eq!(index(yes, "/d"), "/d/static/index.html");
    assert_eq!(index(no, "/d"), "/d/static/auth/login.html");
    assert_eq!(content::index(yes, "/d"), "/d/static/content/post.html");
    assert_eq!(content::index(no, "/d"), "/d/static/content/noauth.html");
}

#[test]
fn generic_lookup() {
    assert_eq!(retrieve_generic(true), Ok(()));
    assert_eq!(retrieve_generic(false), Err(404));
}
