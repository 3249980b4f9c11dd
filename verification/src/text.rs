//! Character classes and string helpers shared by the validators.

use vstd::prelude::*;
use vstd::utf8::*;
use std::borrow::Cow;
use std::string::FromUtf8Error;

verus! {

/// `c` is one of `0-9`, `A-Z`, `a-z` (what `char::is_ascii_alphanumeric` accepts).
pub open spec fn is_ascii_alphanumeric(c: char) -> bool {
    ('0' <= c && c <= '9') || ('A' <= c && c <= 'Z') || ('a' <= c && c <= 'z')
}

/// `c` is one of `0-9`, `A-F`, `a-f` (what `char::is_ascii_hexdigit` accepts).
pub open spec fn is_ascii_hexdigit(c: char) -> bool {
    ('0' <= c && c <= '9') || ('A' <= c && c <= 'F') || ('a' <= c && c <= 'f')
}

/// The lower-case hexadecimal digit for the value `d` (`0 <= d < 16`).
pub open spec fn hex_digit_lower(d: int) -> char {
    if d < 10 {
        (48 + d) as char
    } else {
        (97 + (d - 10)) as char
    }
}

/// The upper-case hexadecimal digit for the value `d` (`0 <= d < 16`).
pub open spec fn hex_digit_upper(d: int) -> char {
    if d < 10 {
        (48 + d) as char
    } else {
        (65 + (d - 10)) as char
    }
}

/// The hexadecimal digits are exactly the characters that write one of the
/// sixteen digit values, in lower or upper case.
pub proof fn lemma_hexdigits_are_digit_values(c: char)
    ensures
        forall|d: int|
            0 <= d < 16 ==> is_ascii_hexdigit(#[trigger] hex_digit_lower(d)) && is_ascii_hexdigit(
                hex_digit_upper(d),
            ),
        is_ascii_hexdigit(c) <==> exists|d: int|
            0 <= d < 16 && (c == #[trigger] hex_digit_lower(d) || c == hex_digit_upper(d)),
{
    if is_ascii_hexdigit(c) {
        let d: int = if '0' <= c && c <= '9' {
            c as int - 48
        } else if 'a' <= c && c <= 'f' {
            c as int - 97 + 10
        } else {
            c as int - 65 + 10
        };
        assert(c == hex_digit_lower(d) || c == hex_digit_upper(d));
    }
}

/// Decides `is_ascii_alphanumeric`.
pub fn ascii_alphanumeric(c: char) -> (b: bool)
    ensures
        b == is_ascii_alphanumeric(c),
{
    ('0' <= c && c <= '9') || ('A' <= c && c <= 'Z') || ('a' <= c && c <= 'z')
}

/// Decides `is_ascii_hexdigit`.
pub fn ascii_hexdigit(c: char) -> (b: bool)
    ensures
        b == is_ascii_hexdigit(c),
{
    ('0' <= c && c <= '9') || ('A' <= c && c <= 'F') || ('a' <= c && c <= 'f')
}

/// Every character of `s` from index `from` on is a hex digit.
pub open spec fn all_hexdigits_from(s: Seq<char>, from: int) -> bool {
    forall|i: int| from <= i < s.len() ==> is_ascii_hexdigit(#[trigger] s[i])
}

/// Whether every character of `s` from index `from` on is a hex digit.
pub fn hexdigits_from(s: &str, from: usize) -> (b: bool)
    ensures
        b == all_hexdigits_from(s@, from as int),
{
    let mut all = true;
    let mut i: usize = 0;
    for c in it: s.chars()
        invariant
            all == (forall|j: int| from <= j < it.index() ==> is_ascii_hexdigit(#[trigger] s@[j])),
            it.seq() == s@,
            i == if it.index() < from { it.index() } else { from as int },
    {
        if i < from {
            i = i + 1;
        } else if !ascii_hexdigit(c) {
            all = false;
        }
    }
    all
}


/// `c` may appear in a path-segment identifier: `0-9`, `A-Z`, `a-z`, `-` or `_`.
pub open spec fn is_id_char(c: char) -> bool {
    is_ascii_alphanumeric(c) || c == '-' || c == '_'
}

/// `b` is the byte of an identifier character: `0-9`, `A-Z`, `a-z`, `-` or `_`.
pub open spec fn is_id_byte(b: u8) -> bool {
    (48 <= b && b <= 57) || (65 <= b && b <= 90) || (97 <= b && b <= 122) || b == 45 || b == 95
}

/// Every character of `s` is an identifier character.
pub open spec fn all_id_chars(s: Seq<char>) -> bool {
    forall|i: int| 0 <= i < s.len() ==> is_id_char(#[trigger] s[i])
}

/// Every character of `s` is an ASCII letter or digit.
pub open spec fn all_alphanumeric(s: Seq<char>) -> bool {
    forall|i: int| 0 <= i < s.len() ==> is_ascii_alphanumeric(#[trigger] s[i])
}

/// Every byte of `b` is an identifier byte.
pub open spec fn all_id_bytes(b: Seq<u8>) -> bool {
    forall|i: int| 0 <= i < b.len() ==> is_id_byte(#[trigger] b[i])
}

/// Whether every character of `s` is an identifier character.
pub fn id_chars(s: &str) -> (b: bool)
    ensures
        b == all_id_chars(s@),
{
    let mut all = true;
    for c in it: s.chars()
        invariant
            all == (forall|j: int| 0 <= j < it.index() ==> is_id_char(#[trigger] s@[j])),
            it.seq() == s@,
    {
        if !(ascii_alphanumeric(c) || c == '-' || c == '_') {
            all = false;
        }
    }
    all
}

/// Whether every character of `s` is an ASCII letter or digit.
pub fn alphanumeric(s: &str) -> (b: bool)
    ensures
        b == all_alphanumeric(s@),
{
    let mut all = true;
    for c in it: s.chars()
        invariant
            all == (forall|j: int| 0 <= j < it.index() ==> is_ascii_alphanumeric(#[trigger] s@[j])),
            it.seq() == s@,
    {
        if !ascii_alphanumeric(c) {
            all = false;
        }
    }
    all
}

/// Whether every byte of `bytes` is an identifier byte.
pub fn id_bytes(bytes: &Vec<u8>) -> (b: bool)
    ensures
        b == all_id_bytes(bytes@),
{
    let mut i: usize = 0;
    while i < bytes.len()
        invariant
            i <= bytes.len(),
            forall|j: int| 0 <= j < i ==> is_id_byte(#[trigger] bytes@[j]),
        decreases bytes.len() - i,
    {
        let c = bytes[i];
        if !((48 <= c && c <= 57) || (65 <= c && c <= 90) || (97 <= c && c <= 122) || c == 45
            || c == 95) {
            return false;
        }
        i = i + 1;
    }
    true
}

/// The first byte of a character's UTF-8 encoding is below `0x80` only for an
/// ASCII character, and is then the character itself.
proof fn lemma_first_encoded_byte(c: char)
    ensures
        encode_scalar(c as u32).len() > 0,
        (c as u32) < 0x80 ==> encode_scalar(c as u32) == seq![c as u8],
        (c as u32) >= 0x80 ==> encode_scalar(c as u32)[0] >= 0x80,
{
    let v = c as u32;
    broadcast use char_is_scalar;
    if has_width_1_encoding(v) {
        assert((v & 0x7F) as u8 == v as u8) by (bit_vector)
            requires
                v <= 0x7F,
        ;
    } else if has_width_2_encoding(v) {
        assert((0xC0u8 | ((v >> 6) & 0x1F) as u8) >= 0x80) by (bit_vector);
    } else if has_width_3_encoding(v) {
        assert((0xE0u8 | ((v >> 12) & 0x0F) as u8) >= 0x80) by (bit_vector);
    } else {
        assert((0xF0u8 | ((v >> 18) & 0x7) as u8) >= 0x80) by (bit_vector);
    }
}

/// An ASCII character and its byte have the same numeric value.
proof fn lemma_ascii_char_byte(c: char)
    requires
        (c as u32) < 0x80,
    ensures
        (c as u8) as int == c as int,
{
    let v = c as u32;
    assert((v as u8) as u32 == v) by (bit_vector)
        requires
            v < 0x80,
    ;
    assert(v as u8 == c as u8);
}

/// The UTF-8 encoding of `s` consists of identifier bytes exactly when `s`
/// consists of identifier characters.
pub proof fn lemma_id_bytes_iff_id_chars(s: Seq<char>)
    ensures
        all_id_bytes(encode_utf8(s)) <==> all_id_chars(s),
    decreases s.len(),
{
    if s.len() > 0 {
        let rest = s.drop_first();
        lemma_id_bytes_iff_id_chars(rest);
        lemma_first_encoded_byte(s[0]);
        let head = encode_scalar(s[0] as u32);
        let bytes = encode_utf8(s);
        assert(bytes == head + encode_utf8(rest));
        if all_id_bytes(bytes) {
            assert(is_id_byte(bytes[0]));
            assert((s[0] as u32) < 0x80);
            assert(bytes[0] == s[0] as u8);
            lemma_ascii_char_byte(s[0]);
            assert(is_id_char(s[0]));
            assert forall|i: int| 0 <= i < encode_utf8(rest).len() implies is_id_byte(
                #[trigger] encode_utf8(rest)[i],
            ) by {
                assert(bytes[head.len() + i] == encode_utf8(rest)[i]);
            }
            assert forall|i: int| 0 <= i < s.len() implies is_id_char(#[trigger] s[i]) by {
                if i > 0 {
                    assert(s[i] == rest[i - 1]);
                }
            }
        }
        if all_id_chars(s) {
            assert(is_id_char(s[0]));
            assert(all_id_chars(rest)) by {
                assert forall|i: int| 0 <= i < rest.len() implies is_id_char(#[trigger] rest[i]) by {
                    assert(rest[i] == s[i + 1]);
                }
            }
            assert forall|i: int| 0 <= i < bytes.len() implies is_id_byte(#[trigger] bytes[i]) by {
                if i > 0 {
                    assert(bytes[i] == encode_utf8(rest)[i - 1]);
                }
            }
        }
    } else {
        assert(encode_utf8(s) =~= Seq::<u8>::empty());
    }
}

/// Bytes below `0x80` read one by one as characters encode back to the same bytes.
pub proof fn lemma_ascii_bytes_roundtrip(bytes: Seq<u8>)
    requires
        forall|i: int| 0 <= i < bytes.len() ==> #[trigger] bytes[i] < 0x80,
    ensures
        encode_utf8(bytes.map_values(|b: u8| b as char)) == bytes,
        is_ascii_chars(bytes.map_values(|b: u8| b as char)),
{
    let chars = bytes.map_values(|b: u8| b as char);
    assert(is_ascii_chars(chars));
    is_ascii_chars_encode_utf8(chars);
    assert(encode_utf8(chars) =~= bytes);
}

/// The text a `Cow<str>` holds, borrowed or owned.
pub fn cow_str<'b>(c: &'b Cow<'_, str>) -> (s: &'b str)
    ensures
        s@ == c@,
{
    match c {
        Cow::Borrowed(s) => s,
        Cow::Owned(s) => s.as_str(),
    }
}

/// `String::push` appends one character.
pub assume_specification[ String::push ](string: &mut String, ch: char)
    ensures
        final(string)@ == old(string)@.push(ch),
;

/// The standard library's error for bytes that are not UTF-8.
#[verifier::external_type_specification]
#[verifier::external_body]
pub struct ExFromUtf8Error(FromUtf8Error);

/// `String::from_utf8` succeeds exactly on valid UTF-8 and then holds the
/// characters those bytes encode.
pub assume_specification[ String::from_utf8 ](vec: Vec<u8>) -> (r: Result<String, FromUtf8Error>)
    ensures
        r is Ok <==> valid_utf8(vec@),
        r matches Ok(s) ==> encode_utf8(s@) == vec@,
;

} // verus!
