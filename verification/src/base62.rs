//! The 62-letter alphabet `0-9A-Za-z` that generated identifiers are drawn from.

use vstd::prelude::*;
use crate::text::{is_ascii_alphanumeric, is_id_char};

verus! {

/// Letter `d` of `0123456789ABCDEFGHIJKLMNOPQRSTUVWXYZabcdefghijklmnopqrstuvwxyz`.
pub open spec fn base62_char(d: int) -> char
    recommends
        0 <= d < 62,
{
    if d < 10 {
        (48 + d) as char
    } else if d < 36 {
        (65 + (d - 10)) as char
    } else {
        (97 + (d - 36)) as char
    }
}

/// `c` is one of the 62 letters.
pub open spec fn is_base62_char(c: char) -> bool {
    exists|d: int| 0 <= d < 62 && c == #[trigger] base62_char(d)
}

/// Every letter of the alphabet is an ASCII letter or digit.
pub proof fn lemma_base62_alphanumeric(d: int)
    requires
        0 <= d < 62,
    ensures
        is_ascii_alphanumeric(base62_char(d)),
{
}

/// The ASCII letters and digits are exactly the 62 letters of the alphabet,
/// and the identifier characters are those letters with `-` and `_`.
pub proof fn lemma_alphanumeric_is_base62(c: char)
    ensures
        is_ascii_alphanumeric(c) <==> is_base62_char(c),
        is_id_char(c) <==> is_base62_char(c) || c == '-' || c == '_',
{
    if is_ascii_alphanumeric(c) {
        let d: int = if '0' <= c && c <= '9' {
            c as int - 48
        } else if 'A' <= c && c <= 'Z' {
            c as int - 65 + 10
        } else {
            c as int - 97 + 36
        };
        assert(c == base62_char(d));
    }
    if is_base62_char(c) {
        let d = choose|d: int| 0 <= d < 62 && c == #[trigger] base62_char(d);
        lemma_base62_alphanumeric(d);
    }
}

/// Different letter positions are different letters: the letter a draw
/// selects determines the draw modulo 62.
pub proof fn lemma_base62_injective(d1: int, d2: int)
    requires
        0 <= d1 < 62,
        0 <= d2 < 62,
        base62_char(d1) == base62_char(d2),
    ensures
        d1 == d2,
{
    assert(base62_char(d1) as int == base62_char(d2) as int);
}

/// The letter that a random draw `r` selects: `r % 62` indexes the alphabet.
pub fn base62_digit(r: usize) -> (c: char)
    ensures
        c == base62_char(r as int % 62),
        is_ascii_alphanumeric(c),
{
    let d = (r % 62) as u8;
    if d < 10 {
        (48u8 + d) as char
    } else if d < 36 {
        (65u8 + (d - 10)) as char
    } else {
        (97u8 + (d - 36)) as char
    }
}

} // verus!
