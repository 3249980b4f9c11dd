//! Identifiers of pastes: ASCII letters and digits, naming a file in the
//! upload directory.

use std::borrow::Cow;
use vstd::prelude::*;
use crate::base62::{base62_char, base62_digit, is_base62_char, lemma_base62_alphanumeric};
use crate::entropy::random_usize;
use crate::text::{all_alphanumeric, alphanumeric, cow_str, is_ascii_alphanumeric};

verus! {

/// Why a form value is not a paste identifier.
#[derive(Debug, Clone, Copy, PartialEq, Eq, Structural)]
pub enum EmbedIdError {
    /// A character other than an ASCII letter or digit.
    InvalidChars,
}

impl EmbedIdError {
    /// The validation message shown to the user.
    pub fn message(&self) -> (m: &'static str)
        ensures
            m@ == "fuck you"@,
    {
        "fuck you"
    }
}

/// The identifier of a paste; it only ever holds ASCII letters and digits.
pub struct EmbedId<'a>(Cow<'a, str>);

impl<'a> EmbedId<'a> {
    #[verifier::type_invariant]
    spec fn well_formed(self) -> bool {
        all_alphanumeric(self.0@)
    }

    /// The identifier's text.
    pub closed spec fn spec_text(self) -> Seq<char> {
        self.0@
    }

    /// The identifier that the random draws `draws` spell: draw `r` selects
    /// letter `r % 62` of `0-9A-Za-z`.
    pub fn from_draws(draws: &Vec<usize>) -> (id: EmbedId<'static>)
        ensures
            id.spec_text() == draws@.map_values(|r: usize| base62_char(r as int % 62)),
    {
        let mut text = String::new();
        let mut i: usize = 0;
        while i < draws.len()
            invariant
                i <= draws.len(),
                text@ == draws@.take(i as int).map_values(|r: usize| base62_char(r as int % 62)),
                all_alphanumeric(text@),
            decreases draws.len() - i,
        {
            text.push(base62_digit(draws[i]));
            proof {
                assert(draws@.take(i + 1) == draws@.take(i as int).push(draws@[i as int]));
                assert(draws@.take(i + 1).map_values(|r: usize| base62_char(r as int % 62))
                    == draws@.take(i as int).map_values(|r: usize| base62_char(r as int % 62)).push(
                    base62_char(draws@[i as int] as int % 62),
                ));
            }
            i = i + 1;
        }
        proof {
            assert(draws@.take(draws.len() as int) == draws@);
        }
        EmbedId(Cow::Owned(text))
    }

    /// A fresh random identifier of `size` letters from `0-9A-Za-z`.
    pub fn new(size: usize) -> (id: EmbedId<'static>)
        ensures
            id.spec_text().len() == size,
            forall|i: int| 0 <= i < size ==> is_base62_char(#[trigger] id.spec_text()[i]),
    {
        let mut draws: Vec<usize> = Vec::new();
        let mut i: usize = 0;
        while i < size
            invariant
                i <= size,
                draws.len() == i,
            decreases size - i,
        {
            draws.push(random_usize());
            i = i + 1;
        }
        let id = EmbedId::from_draws(&draws);
        proof {
            assert forall|i: int| 0 <= i < size implies is_base62_char(#[trigger] id.spec_text()[i]) by {
                assert(id.spec_text()[i] == base62_char(draws@[i] as int % 62));
            }
        }
        id
    }

    /// The path of the paste's file: the identifier as one component under
    /// the `upload` directory of `manifest_dir` (the directory the service
    /// was built in). The identifier holds only letters and digits, so the
    /// path never leaves that directory.
    pub fn file_path(&self, manifest_dir: &str) -> (path: String)
        ensures
            path@ == manifest_dir@ + "/upload"@ + "/"@ + self.spec_text(),
            all_alphanumeric(self.spec_text()),
    {
        proof {
            use_type_invariant(self);
        }
        let mut path = String::from_str(manifest_dir);
        path.append("/upload");
        path.append("/");
        path.append(cow_str(&self.0));
        path
    }

    /// The identifier's text.
    pub fn as_str(&self) -> (s: &str)
        ensures
            s@ == self.spec_text(),
            all_alphanumeric(s@),
    {
        proof {
            use_type_invariant(self);
        }
        cow_str(&self.0)
    }

    /// Reads an identifier from a path segment: accepted when every character
    /// is an ASCII letter or digit; the segment itself is the error otherwise.
    pub fn from_param(param: &'a str) -> (r: Result<EmbedId<'a>, &'a str>)
        ensures
            r is Ok <==> all_alphanumeric(param@),
            r matches Ok(id) ==> id.spec_text() == param@,
            r matches Err(e) ==> e == param,
    {
        if alphanumeric(param) {
            Ok(EmbedId(Cow::Borrowed(param)))
        } else {
            Err(param)
        }
    }

    /// Reads an identifier from a form value, under the same rule as `from_param`.
    pub fn from_value(value: &'a str) -> (r: Result<EmbedId<'a>, EmbedIdError>)
        ensures
            r is Ok <==> all_alphanumeric(value@),
            r matches Ok(id) ==> id.spec_text() == value@,
            r matches Err(e) ==> e == EmbedIdError::InvalidChars,
    {
        if alphanumeric(value) {
            Ok(EmbedId(Cow::Borrowed(value)))
        } else {
            Err(EmbedIdError::InvalidChars)
        }
    }
}

/// Every generated identifier is accepted back as a path segment.
pub proof fn lemma_generated_ids_parse(draws: Seq<usize>)
    ensures
        all_alphanumeric(draws.map_values(|r: usize| base62_char(r as int % 62))),
{
    let text = draws.map_values(|r: usize| base62_char(r as int % 62));
    assert forall|i: int| 0 <= i < text.len() implies is_ascii_alphanumeric(#[trigger] text[i]) by {
        lemma_base62_alphanumeric(draws[i] as int % 62);
    }
}

} // verus!
