//! The password field of the login form.

use vstd::prelude::*;
use vstd::utf8::{encode_utf8, valid_utf8};

verus! {

/// A password as typed into the login form.
#[derive(Hash)]
pub struct Password(pub String);

/// Why an uploaded password field is refused.
#[derive(Debug, Clone, Copy, PartialEq, Eq, Structural)]
pub enum PasswordError {
    /// The bytes are not UTF-8.
    NotUtf8,
}

impl PasswordError {
    /// The validation message shown to the user.
    pub fn message(&self) -> (m: &'static str)
        ensures
            m@ == "that is not valid utf-8"@,
    {
        "that is not valid utf-8"
    }
}

impl Password {
    /// A password from a form value, taken as it is.
    pub fn from_value(value: &str) -> (p: Password)
        ensures
            p.0@ == value@,
    {
        Password(value.to_owned())
    }

    /// A password from the complete bytes of an uploaded form field: accepted
    /// exactly when they are UTF-8.
    pub fn from_data(bytes: Vec<u8>) -> (r: Result<Password, PasswordError>)
        ensures
            r is Ok <==> valid_utf8(bytes@),
            r matches Ok(p) ==> encode_utf8(p.0@) == bytes@,
    {
        match String::from_utf8(bytes) {
            Ok(password) => Ok(Password(password)),
            Err(_) => Err(PasswordError::NotUtf8),
        }
    }
}

/// A password uploaded as the UTF-8 bytes of a text is accepted and reads
/// back as exactly that text, as the same text given as a form value does.
pub proof fn lemma_data_agrees_with_value(text: Seq<char>, read_back: Seq<char>)
    requires
        encode_utf8(read_back) == encode_utf8(text),
    ensures
        valid_utf8(encode_utf8(text)),
        read_back == text,
{
    vstd::utf8::encode_utf8_valid_utf8(text);
    vstd::utf8::encode_utf8_decode_utf8(text);
    vstd::utf8::encode_utf8_decode_utf8(read_back);
}

} // verus!
