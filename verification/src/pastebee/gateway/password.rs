//! The stored credentials: a 16-byte salt and an Argon2 hash in one file.

use vstd::prelude::*;
use vstd::utf8::{encode_utf8, valid_utf8};

verus! {

/// The bytes `bytes[from..to]` as a new vector.
fn copy_range(bytes: &Vec<u8>, from: usize, to: usize) -> (part: Vec<u8>)
    requires
        from <= to <= bytes.len(),
    ensures
        part@ == bytes@.subrange(from as int, to as int),
{
    let mut part: Vec<u8> = Vec::new();
    let mut i = from;
    while i < to
        invariant
            from <= i <= to <= bytes.len(),
            part@ == bytes@.subrange(from as int, i as int),
        decreases to - i,
    {
        part.push(bytes[i]);
        proof {
            assert(bytes@.subrange(from as int, i + 1) == bytes@.subrange(from as int, i as int).push(
                bytes@[i as int],
            ));
        }
        i = i + 1;
    }
    part
}

/// Reads the credentials out of the first 107 bytes of the credentials file
/// (`buf`, zero-filled past the end of a shorter file): the salt is bytes
/// 0 to 15, byte 16 is skipped, the hash is bytes 17 to 106. `None` when
/// either part is not UTF-8.
pub fn read_password(buf: &Vec<u8>) -> (r: Option<(String, String)>)
    requires
        buf.len() == 107,
    ensures
        r is Some <==> valid_utf8(buf@.subrange(0, 16)) && valid_utf8(buf@.subrange(17, 107)),
        r matches Some((salt, hash)) ==> encode_utf8(salt@) == buf@.subrange(0, 16) && encode_utf8(
            hash@,
        ) == buf@.subrange(17, 107),
{
    let first = copy_range(buf, 0, 16);
    let second = copy_range(buf, 17, 107);
    let salt = String::from_utf8(first);
    let hash = String::from_utf8(second);
    match (salt, hash) {
        (Ok(salt), Ok(hash)) => Some((salt, hash)),
        _ => None,
    }
}

} // verus!
