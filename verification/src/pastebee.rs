//! The paste-and-embed service: path parameters, page selection and the
//! lookup of an identifier at the site root.

pub mod content;
pub mod embeds;
pub mod gateway;
pub mod login;

use vstd::prelude::*;
use crate::text::{all_id_chars, id_chars};
use self::gateway::auth::AuthState;

verus! {

/// An identifier taken from a path segment: letters, digits, `-` and `_`.
pub struct Id<'a>(&'a str);

impl<'a> Id<'a> {
    /// The identifier's text.
    pub closed spec fn spec_text(self) -> Seq<char> {
        self.0@
    }

    /// Reads an identifier from a path segment: accepted when every character
    /// is `A-Z`, `a-z`, `0-9`, `-` or `_`; the segment itself is the error otherwise.
    pub fn from_param(param: &'a str) -> (r: Result<Id<'a>, &'a str>)
        ensures
            r is Ok <==> all_id_chars(param@),
            r matches Ok(id) ==> id.spec_text() == param@,
            r matches Err(e) ==> e == param,
    {
        if id_chars(param) {
            Ok(Id(param))
        } else {
            Err(param)
        }
    }

    /// The identifier's text.
    pub fn as_str(&self) -> (s: &'a str)
        ensures
            s@ == self.spec_text(),
    {
        self.0
    }
}

/// The path of `relative` under the working directory `current_dir`: the two
/// texts joined as they are.
pub fn filepath(current_dir: &str, relative: &str) -> (path: String)
    ensures
        path@ == current_dir@ + relative@,
{
    let mut path = String::from_str(current_dir);
    path.append(relative);
    path
}

/// The page served at `/`: the start page for a logged-in visitor, the login
/// page otherwise.
pub fn index(auth: AuthState, current_dir: &str) -> (path: String)
    ensures
        path@ == current_dir@ + (if auth.valid {
            "/static/index.html"@
        } else {
            "/static/auth/login.html"@
        }),
{
    if auth.valid {
        filepath(current_dir, "/static/index.html")
    } else {
        filepath(current_dir, "/static/auth/login.html")
    }
}

/// The file served at `/favicon.ico`.
pub fn favicon(current_dir: &str) -> (path: String)
    ensures
        path@ == current_dir@ + "/favicon.ico"@,
{
    filepath(current_dir, "/favicon.ico")
}

/// What `/<id>` answers, given whether an embed with that identifier exists:
/// the embed itself (`Ok`), or status 404.
pub fn retrieve_generic(embed_exists: bool) -> (r: Result<(), u16>)
    ensures
        r == (if embed_exists {
            Ok::<(), u16>(())
        } else {
            Err::<(), u16>(404)
        }),
{
    let mut num_exists: u8 = 0;
    if embed_exists {
        num_exists = num_exists + 1;
    }
    if num_exists == 0 {
        Err(404)
    } else {
        Ok(())
    }
}

/// The file served at `/watch?v=<v>`: `<v>.html` under the assets directory.
pub fn retrieve_video(current_dir: &str, v: &str) -> (path: String)
    ensures
        path@ == current_dir@ + "/assets/"@ + v@ + ".html"@,
{
    let mut relative = String::from_str("/assets/");
    relative.append(v);
    relative.append(".html");
    filepath(current_dir, relative.as_str())
}

} // verus!
