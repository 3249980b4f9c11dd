//! Identifiers of stored embeds: letters, digits, `-` and `_`.

use std::borrow::Cow;
use vstd::prelude::*;
use vstd::utf8::encode_utf8;
use crate::base62::{
    base62_char, base62_digit, is_base62_char, lemma_base62_alphanumeric, lemma_base62_injective,
};
use crate::entropy::random_usize;
use crate::text::{
    all_id_bytes, all_id_chars, id_bytes, id_chars, is_ascii_alphanumeric, is_id_char,
    lemma_ascii_bytes_roundtrip, lemma_id_bytes_iff_id_chars,
};

verus! {

/// Why a form field is not an embed identifier.
#[derive(Debug, Clone, Copy, PartialEq, Eq, Structural)]
pub enum EmbedIdError {
    /// A character other than `A-Z`, `a-z`, `0-9`, `-`, `_`.
    InvalidChars,
    /// No characters at all (refused for uploaded data only).
    Empty,
}

impl EmbedIdError {
    /// The validation message shown to the user for this error.
    pub fn message(&self) -> (m: &'static str)
        ensures
            m@ == match self {
                EmbedIdError::InvalidChars => "can only contain A-Z, a-z, 0-9, -, _"@,
                EmbedIdError::Empty => "id cannot be empty"@,
            },
    {
        match self {
            EmbedIdError::InvalidChars => "can only contain A-Z, a-z, 0-9, -, _",
            EmbedIdError::Empty => "id cannot be empty",
        }
    }
}

/// The characters that random draws `draws` select, one per draw.
pub open spec fn drawn_id(draws: Seq<usize>) -> Seq<char> {
    draws.map_values(|r: usize| base62_char(r as int % 62))
}

/// The identifier of an embed, borrowed from the request or owned.
pub struct EmbedId<'a>(pub Cow<'a, str>);

impl<'a> Clone for EmbedId<'a> {
    /// A copy with the same text, borrowing where the original borrows.
    fn clone(&self) -> (c: Self)
        ensures
            c.0@ == self.0@,
    {
        match &self.0 {
            Cow::Borrowed(s) => EmbedId(Cow::Borrowed(s)),
            Cow::Owned(s) => EmbedId(Cow::Owned(s.clone())),
        }
    }
}

impl<'a> EmbedId<'a> {
    /// The identifier that the random draws `draws` spell: draw `r` selects
    /// letter `r % 62` of `0-9A-Za-z`.
    pub fn from_draws(draws: &Vec<usize>) -> (id: EmbedId<'static>)
        ensures
            id.0@ == drawn_id(draws@),
    {
        let mut text = String::new();
        let mut i: usize = 0;
        while i < draws.len()
            invariant
                i <= draws.len(),
                text@ == drawn_id(draws@.take(i as int)),
            decreases draws.len() - i,
        {
            text.push(base62_digit(draws[i]));
            proof {
                assert(draws@.take(i + 1) == draws@.take(i as int).push(draws@[i as int]));
            }
            i = i + 1;
        }
        proof {
            assert(draws@.take(draws.len() as int) == draws@);
        }
        EmbedId(Cow::Owned(text))
    }

    /// A fresh random identifier of `size` letters from `0-9A-Za-z`.
    pub fn new(size: usize) -> (id: EmbedId<'static>)
        ensures
            id.0@.len() == size,
            forall|i: int| 0 <= i < size ==> is_base62_char(#[trigger] id.0@[i]),
    {
        let mut draws: Vec<usize> = Vec::new();
        let mut i: usize = 0;
        while i < size
            invariant
                i <= size,
                draws.len() == i,
            decreases size - i,
        {
            draws.push(random_usize());
            i = i + 1;
        }
        let id = EmbedId::from_draws(&draws);
        proof {
            assert forall|i: int| 0 <= i < size implies is_base62_char(#[trigger] id.0@[i]) by {
                let d = draws@[i] as int % 62;
                assert(id.0@[i] == base62_char(d));
            }
        }
        id
    }

    /// Reads an identifier from a path segment: accepted when every character
    /// is `A-Z`, `a-z`, `0-9`, `-` or `_`; the segment itself is the error otherwise.
    pub fn from_param(param: &'a str) -> (r: Result<EmbedId<'a>, &'a str>)
        ensures
            r is Ok <==> all_id_chars(param@),
            r matches Ok(id) ==> id.0@ == param@,
            r matches Err(e) ==> e == param,
    {
        if id_chars(param) {
            Ok(EmbedId(Cow::Borrowed(param)))
        } else {
            Err(param)
        }
    }

    /// Reads an identifier from a form value, under the same rule as `from_param`.
    pub fn from_value(value: &'a str) -> (r: Result<EmbedId<'a>, EmbedIdError>)
        ensures
            r is Ok <==> all_id_chars(value@),
            r matches Ok(id) ==> id.0@ == value@,
            r matches Err(e) ==> e == EmbedIdError::InvalidChars,
    {
        if id_chars(value) {
            Ok(EmbedId(Cow::Borrowed(value)))
        } else {
            Err(EmbedIdError::InvalidChars)
        }
    }

    /// Reads an identifier from the complete bytes of an uploaded form field:
    /// every byte must be `A-Z`, `a-z`, `0-9`, `-` or `_`, and there must be one.
    pub fn from_data(bytes: Vec<u8>) -> (r: Result<EmbedId<'static>, EmbedIdError>)
        ensures
            r matches Ok(id) ==> all_id_bytes(bytes@) && bytes@.len() > 0 && encode_utf8(id.0@)
                == bytes@ && id.0@ == bytes@.map_values(|b: u8| b as char),
            r matches Err(e) ==> (e == EmbedIdError::InvalidChars <==> !all_id_bytes(bytes@)),
            r matches Err(e) ==> (e == EmbedIdError::Empty <==> all_id_bytes(bytes@) && bytes@.len()
                == 0),
            r is Ok <==> all_id_bytes(bytes@) && bytes@.len() > 0,
    {
        if !id_bytes(&bytes) {
            return Err(EmbedIdError::InvalidChars);
        }
        let mut text = String::new();
        let mut i: usize = 0;
        while i < bytes.len()
            invariant
                i <= bytes.len(),
                text@ == bytes@.take(i as int).map_values(|b: u8| b as char),
            decreases bytes.len() - i,
        {
            text.push(bytes[i] as char);
            proof {
                assert(bytes@.take(i + 1) == bytes@.take(i as int).push(bytes@[i as int]));
                assert(bytes@.take(i + 1).map_values(|b: u8| b as char) == bytes@.take(
                    i as int,
                ).map_values(|b: u8| b as char).push(bytes@[i as int] as char));
            }
            i = i + 1;
        }
        proof {
            assert(bytes@.take(bytes.len() as int) == bytes@);
            assert forall|j: int| 0 <= j < bytes@.len() implies #[trigger] bytes@[j] < 0x80 by {
                assert(crate::text::is_id_byte(bytes@[j]));
            }
            lemma_ascii_bytes_roundtrip(bytes@);
        }
        if text.as_str().is_empty() {
            return Err(EmbedIdError::Empty);
        }
        Ok(EmbedId(Cow::Owned(text)))
    }
}

/// A generated identifier is always accepted back as a path segment and as a
/// form value: its letters are all identifier characters.
pub proof fn lemma_generated_ids_are_valid(draws: Seq<usize>)
    ensures
        all_id_chars(drawn_id(draws)),
{
    assert forall|i: int| 0 <= i < drawn_id(draws).len() implies is_id_char(
        #[trigger] drawn_id(draws)[i],
    ) by {
        lemma_base62_alphanumeric(draws[i] as int % 62);
    }
}

/// Each letter of an identifier records its own draw: two sequences of draws
/// spell the same identifier only when they have the same length and agree,
/// draw by draw, modulo 62.
pub proof fn lemma_drawn_id_records_each_draw(draws1: Seq<usize>, draws2: Seq<usize>)
    ensures
        drawn_id(draws1).len() == draws1.len(),
        drawn_id(draws1) == drawn_id(draws2) ==> draws1.len() == draws2.len() && forall|i: int|
            0 <= i < draws1.len() ==> #[trigger] draws1[i] % 62 == draws2[i] % 62,
{
    if drawn_id(draws1) == drawn_id(draws2) {
        assert forall|i: int| 0 <= i < draws1.len() implies #[trigger] draws1[i] % 62 == draws2[i]
            % 62 by {
            assert(drawn_id(draws1)[i] == drawn_id(draws2)[i]);
            lemma_base62_injective(draws1[i] as int % 62, draws2[i] as int % 62);
        }
    }
}

/// The same text is accepted as uploaded bytes exactly when it is accepted as a
/// form value and is not empty.
pub proof fn lemma_data_agrees_with_value(text: Seq<char>)
    ensures
        (all_id_bytes(encode_utf8(text)) && encode_utf8(text).len() > 0) <==> (all_id_chars(text)
            && text.len() > 0),
{
    lemma_id_bytes_iff_id_chars(text);
    if text.len() == 0 {
        assert(encode_utf8(text) =~= Seq::<u8>::empty());
    } else {
        assert(encode_utf8(text).len() > 0) by {
            vstd::utf8::encode_utf8_first_scalar(text);
        }
    }
}

} // verus!
