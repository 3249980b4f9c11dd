use pastebee::pastebee::embeds::embed_id::{EmbedId, EmbedIdError};
use pastebee::pastebee::embeds::{index, retrieve, retrieve_raw, upload, TemplateContext};
use pastebee::pastebee::gateway::auth::AuthState;

#[test]
fn embed_ids_from_segments_and_values() {
    let id = EmbedId::from_param("ab-c_9").ok().expect("valid id");
    assert_eq!(id.0, "ab-c_9");
    assert_eq!(EmbedId::from_param("a/b").err(), Some("a/b"));
    assert_eq!(EmbedId::from_param("a.b").err(), Some("a.b"));
    assert!(EmbedId::from_param("").is_ok());
    assert!(EmbedId::from_value("Z-z_0").is_ok());
    assert_eq!(EmbedId::from_value("é").err(), Some(EmbedIdError::InvalidChars));
    assert!(EmbedId::from_value("").is_ok());
}

#[test]
fn embed_ids_from_data() {
    let id = EmbedId::from_data(b"abc-_".to_vec()).ok().expect("valid id");
    assert_eq!(id.0, "abc-_");
    assert_eq!(EmbedId::from_data(Vec::new()).err(), Some(EmbedIdError::Empty));
    assert_eq!(EmbedId::from_data(b"a b".to_vec()).err(), Some(EmbedIdError::InvalidChars));
    assert_eq!(EmbedId::from_data(vec![0xff, 0x41]).err(), Some(EmbedIdError::InvalidChars));
    assert_eq!(EmbedId::from_data("é".as_bytes().to_vec()).err(), Some(EmbedIdError::InvalidChars));
    assert_eq!(EmbedIdError::InvalidChars.message(), "can only contain A-Z, a-z, 0-9, -, _");
    assert_eq!(EmbedIdError::Empty.message(), "id cannot be empty");
}

#[test]
fn data_agrees_with_value() {
    for text in ["abc", "a-b_c", "", "a b", "é", "x/y"] {
        let as_value = EmbedId::from_value(text).is_ok() && !text.is_empty();
        let as_data = EmbedId::from_data(text.as_bytes().to_vec()).is_ok();
        assert_eq!(as_value, as_data, "{}", text);
    }
}

#[test]
fn generated_embed_ids() {
    let id = EmbedId::new(12);
    assert_eq!(id.0.chars().count(), 12);
    assert!(id.0.chars().all(|c| c.is_ascii_alphanumeric()));
    let text = id.0.to_string();
    assert!(EmbedId::from_param(&text).is_ok());
    assert!(EmbedId::from_value(&text).is_ok());
    assert_eq!(EmbedId::from_draws(&vec![1, 11, 37, 123]).0, "1Bbz");
    let copy = id.clone();
    assert_eq!(copy.0, id.0);
}

fn context(id: &str) -> TemplateContext {
    TemplateContext::from_columns(&vec![
        Some(id.to_string()),
        Some("site".to_string()),
        Some("title".to_string()),
        Some("#ffffff".to_string()),
        Some("desc".to_string()),
        Some("img".to_string()),
    ])
}

#[test]
fn context_from_columns() {
    let c = context("x1");
    assert_eq!(c.id, "x1");
    assert_eq!(c.site_name, "site");
    assert_eq!(c.title, "title");
    assert_eq!(c.color, "#ffffff");
    assert_eq!(c.description, "desc");
    assert_eq!(c.image, "img");
    let partial = TemplateContext::from_columns(&vec![Some("id".to_string()), None]);
    assert_eq!(partial.id, "id");
    assert_eq!(partial.site_name, "");
    assert_eq!(partial.image, "");
}

#[test]
fn embed_pages() {
    assert_eq!(index(AuthState { valid: true }, "/d"), "/d/static/embeds/post.html");
    assert_eq!(index(AuthState { valid: false }, "/d"), "/d/static/embeds/noauth.html");
    assert_eq!(retrieve(None).err(), Some(404));
    let page = retrieve(Some(context("a"))).ok().expect("page");
    assert_eq!(page.template, "embed");
    assert_eq!(page.context.id, "a");
    let raw = retrieve_raw(Some(context("b"))).ok().expect("page");
    assert_eq!(raw.template, "embedraw");
    assert_eq!(retrieve_raw(None).err(), Some(404));
}

#[test]
fn upload_answers() {
    assert_eq!(upload(false, None).err(), Some(409));
    assert_eq!(upload(false, Some(context("a"))).err(), Some(409));
    assert_eq!(upload(true, None).err(), Some(404));
    let page = upload(true, Some(context("c"))).ok().expect("page");
    assert_eq!(page.template, "embed");
    assert_eq!(page.context.id, "c");
}
