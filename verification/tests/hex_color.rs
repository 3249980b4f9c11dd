use pastebee::embeed::hex_color::{HexColor, HexColorError};

fn rejection(value: &str) -> Option<HexColorError> {
    match HexColor::from_value(value) {
        Ok(_) => None,
        Err(e) => Some(e),
    }
}

#[test]
fn accepts_six_hex_digits() {
    let color = HexColor::from_value("#a1B2c3").ok().expect("valid colour");
    assert_eq!(color.as_str(), "#a1B2c3");
    assert_eq!(rejection("#000000"), None);
    assert_eq!(rejection("#FFFFFF"), None);
}

#[test]
fn refuses_wrong_length() {
    assert_eq!(rejection(""), Some(HexColorError::WrongLength));
    assert_eq!(rejection("#12345"), Some(HexColorError::WrongLength));
    assert_eq!(rejection("#1234567"), Some(HexColorError::WrongLength));
}

#[test]
fn refuses_missing_hash() {
    assert_eq!(rejection("1234567"), Some(HexColorError::MissingHash));
    assert_eq!(rejection("a#12345"), Some(HexColorError::MissingHash));
}

#[test]
fn refuses_non_hex_digits() {
    assert_eq!(rejection("#12345g"), Some(HexColorError::InvalidDigits));
    assert_eq!(rejection("# 12345"), Some(HexColorError::InvalidDigits));
}

#[test]
fn length_is_counted_in_bytes() {
    // '#' and three two-byte characters: seven bytes, four characters.
    assert_eq!("#ééé".len(), 7);
    assert_eq!(rejection("#ééé"), Some(HexColorError::InvalidDigits));
    // A two-byte character in front of five digits: seven bytes, no '#'.
    assert_eq!(rejection("é12345"), Some(HexColorError::MissingHash));
    // Seven characters but eight bytes.
    assert_eq!(rejection("#12345é"), Some(HexColorError::WrongLength));
}

#[test]
fn error_messages() {
    assert_eq!(HexColorError::WrongLength.message(), "must contain '#' and 6 hex digits");
    assert_eq!(HexColorError::MissingHash.message(), "must start with '#'");
    assert_eq!(HexColorError::InvalidDigits.message(), "all 6 digits must be valid hex");
}

#[test]
fn accepted_colours_are_seven_characters() {
    for value in ["#abcdef", "#ABCDEF", "#012345", "#9a8B7c"] {
        let color = HexColor::from_value(value).ok().expect("valid colour");
        let text = color.as_str();
        assert_eq!(text.chars().count(), 7);
        assert!(text.starts_with('#'));
        assert!(text.chars().skip(1).all(|c| c.is_ascii_hexdigit()));
    }
}
