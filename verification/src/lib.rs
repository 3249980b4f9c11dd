//! Verified core of a small paste and embed web service: identifier and colour
//! validation, credential checking, session decisions and page selection.
//! The web server itself lives in `app/`.

pub mod text;
pub mod base62;
pub mod decimal;
mod entropy;
pub mod embeed;
pub mod pastebee;
pub mod pastebin;
