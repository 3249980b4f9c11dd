//! A colour written as `#` followed by six hexadecimal digits, as accepted
//! from an upload form.

use vstd::prelude::*;
use vstd::utf8::*;
use crate::text::{
    all_hexdigits_from, hex_digit_lower, hex_digit_upper, hexdigits_from, is_ascii_hexdigit,
    lemma_hexdigits_are_digit_values,
};

verus! {

/// Why a form value is not a colour.
#[derive(Debug, Clone, Copy, PartialEq, Eq, Structural)]
pub enum HexColorError {
    /// The value is not seven bytes long.
    WrongLength,
    /// The value does not start with `#`.
    MissingHash,
    /// A character after the `#` is not a hexadecimal digit.
    InvalidDigits,
}

impl HexColorError {
    /// The validation message shown to the user for this error.
    pub fn message(&self) -> (m: &'static str)
        ensures
            m@ == match self {
                HexColorError::WrongLength => "must contain '#' and 6 hex digits"@,
                HexColorError::MissingHash => "must start with '#'"@,
                HexColorError::InvalidDigits => "all 6 digits must be valid hex"@,
            },
    {
        match self {
            HexColorError::WrongLength => "must contain '#' and 6 hex digits",
            HexColorError::MissingHash => "must start with '#'",
            HexColorError::InvalidDigits => "all 6 digits must be valid hex",
        }
    }
}

/// The number of bytes of the UTF-8 encoding of `s` (what `str::len` returns).
pub open spec fn byte_len(s: Seq<char>) -> nat {
    encode_utf8(s).len()
}

/// Why `v` is refused as a colour, checked in order: byte length, leading `#`,
/// hexadecimal digits; `None` when it is accepted.
pub open spec fn hex_color_rejection(v: Seq<char>) -> Option<HexColorError> {
    if byte_len(v) != 7 {
        Some(HexColorError::WrongLength)
    } else if v[0] != '#' {
        Some(HexColorError::MissingHash)
    } else if !all_hexdigits_from(v, 1) {
        Some(HexColorError::InvalidDigits)
    } else {
        None
    }
}

/// `v` is a `#` followed by exactly six hexadecimal digits.
pub open spec fn is_hex_color(v: Seq<char>) -> bool {
    &&& v.len() == 7
    &&& v[0] == '#'
    &&& all_hexdigits_from(v, 1)
}

/// The accepted values are exactly the `#rrggbb` strings.
pub proof fn lemma_accepted_iff_hex_color(v: Seq<char>)
    ensures
        hex_color_rejection(v) is None <==> is_hex_color(v),
{
    if hex_color_rejection(v) is None {
        assert(v.len() > 0) by {
            if v.len() == 0 {
                assert(encode_utf8(v) =~= Seq::<u8>::empty());
            }
        }
        assert(is_ascii_chars(v)) by {
            assert forall|i| 0 <= i < v.len() implies '\0' <= #[trigger] v[i] <= '\u{7f}' by {
                if i > 0 {
                    assert(is_ascii_hexdigit(v[i]));
                }
            }
        }
        is_ascii_chars_encode_utf8(v);
    }
    if is_hex_color(v) {
        assert(is_ascii_chars(v)) by {
            assert forall|i| 0 <= i < v.len() implies '\0' <= #[trigger] v[i] <= '\u{7f}' by {
                if i > 0 {
                    assert(is_ascii_hexdigit(v[i]));
                }
            }
        }
        is_ascii_chars_encode_utf8(v);
    }
}

/// The `#rrggbb` text of the colour with channels `r`, `g`, `b`, each written
/// as two digits, in lower case or (with `upper`) upper case.
pub open spec fn rgb_text(r: u8, g: u8, b: u8, upper: bool) -> Seq<char> {
    let digit = |d: int| if upper {
        hex_digit_upper(d)
    } else {
        hex_digit_lower(d)
    };
    seq![
        '#',
        digit(r as int / 16),
        digit(r as int % 16),
        digit(g as int / 16),
        digit(g as int % 16),
        digit(b as int / 16),
        digit(b as int % 16),
    ]
}

/// Every colour, written `#rrggbb` with any of its sixteen million channel
/// combinations in either case, is accepted.
pub proof fn lemma_every_rgb_colour_accepted(r: u8, g: u8, b: u8, upper: bool)
    ensures
        hex_color_rejection(rgb_text(r, g, b, upper)) is None,
{
    let v = rgb_text(r, g, b, upper);
    lemma_hexdigits_are_digit_values('0');
    assert(is_hex_color(v)) by {
        assert forall|i: int| 1 <= i < v.len() implies is_ascii_hexdigit(#[trigger] v[i]) by {
            if upper {
                assert(v[i] == hex_digit_upper(if i == 1 { r as int / 16 } else if i == 2 {
                    r as int % 16
                } else if i == 3 {
                    g as int / 16
                } else if i == 4 {
                    g as int % 16
                } else if i == 5 {
                    b as int / 16
                } else {
                    b as int % 16
                }));
            } else {
                assert(v[i] == hex_digit_lower(if i == 1 { r as int / 16 } else if i == 2 {
                    r as int % 16
                } else if i == 3 {
                    g as int / 16
                } else if i == 4 {
                    g as int % 16
                } else if i == 5 {
                    b as int / 16
                } else {
                    b as int % 16
                }));
            }
        }
    }
    lemma_accepted_iff_hex_color(v);
}

/// A colour of the form `#rrggbb`, borrowed from the form value it was read from.
pub struct HexColor<'a>(&'a str);

impl<'a> HexColor<'a> {
    #[verifier::type_invariant]
    spec fn well_formed(self) -> bool {
        is_hex_color(self.0@)
    }

    /// The colour's text.
    pub closed spec fn spec_text(self) -> Seq<char> {
        self.0@
    }

    /// Reads a colour from a form value: seven bytes, `#`, then six
    /// hexadecimal digits; otherwise the first failing check is reported.
    pub fn from_value(value: &'a str) -> (r: Result<HexColor<'a>, HexColorError>)
        ensures
            r is Ok <==> hex_color_rejection(value@) is None,
            r matches Ok(c) ==> c.spec_text() == value@,
            r matches Err(e) ==> hex_color_rejection(value@) == Some(e),
    {
        if value.as_bytes().len() != 7 {
            return Err(HexColorError::WrongLength);
        }
        proof {
            if value@.len() == 0 {
                assert(encode_utf8(value@) =~= Seq::<u8>::empty());
            }
        }
        if value.get_char(0) != '#' {
            return Err(HexColorError::MissingHash);
        }
        if hexdigits_from(value, 1) {
            proof {
                lemma_accepted_iff_hex_color(value@);
            }
            Ok(HexColor(value))
        } else {
            Err(HexColorError::InvalidDigits)
        }
    }

    /// The colour's text, `#` and six hexadecimal digits (what `Display` prints).
    pub fn as_str(&self) -> (s: &'a str)
        ensures
            s@ == self.spec_text(),
            is_hex_color(s@),
    {
        proof {
            use_type_invariant(self);
        }
        self.0
    }
}

} // verus!
