//! A minimal paste service: a usage page and password-checked uploads.

pub mod embed_id;

use vstd::prelude::*;

verus! {

/// Why an upload request is refused.
#[derive(Debug, Clone, Copy, PartialEq, Eq, Structural)]
pub enum AuthError {
    WrongPassword,
    NoPassword,
}

impl AuthError {
    /// The status a refusal is answered with: 403 for a wrong password, 500
    /// when the stored password cannot be read.
    pub fn status(&self) -> (code: u16)
        ensures
            code == match self {
                AuthError::WrongPassword => 403u16,
                AuthError::NoPassword => 500u16,
            },
    {
        match self {
            AuthError::WrongPassword => 403,
            AuthError::NoPassword => 500,
        }
    }
}

/// A request that presented the stored password.
pub struct Auth(pub bool);

/// The password a request presents: its `password` header, or the empty text
/// without one.
pub open spec fn presented(header: Option<Seq<char>>) -> Seq<char> {
    match header {
        Some(h) => h,
        None => Seq::empty(),
    }
}

/// A request presents its whole `password` header, whatever its length, and
/// the empty text when it has none.
pub proof fn lemma_presented_is_whole_header(header: Option<Seq<char>>)
    ensures
        header matches Some(h) ==> presented(header) == h,
        header matches Some(h) ==> presented(header).len() == h.len(),
        header is None ==> presented(header).len() == 0,
{
}

impl Auth {
    /// Admits a request whose `password` header (`None`: absent, read as the
    /// empty text) equals the stored password (`None`: the credentials file
    /// could not be opened).
    pub fn from_request(stored: Option<String>, header: Option<&str>) -> (r: Result<Auth, AuthError>)
        ensures
            stored is None ==> r matches Err(AuthError::NoPassword),
            stored matches Some(s) ==> (r is Ok <==> s@ == presented(header.deep_view())),
            stored is Some ==> (r matches Err(e) ==> e == AuthError::WrongPassword),
            stored matches Some(s) ==> (header matches Some(h) ==> (r is Ok <==> s@ == h@)),
            stored matches Some(s) ==> (header is None ==> (r is Ok <==> s@.len() == 0)),
            r matches Ok(a) ==> a.0,
    {
        match stored {
            None => Err(AuthError::NoPassword),
            Some(password) => {
                proof {
                    if password@.len() == 0 {
                        assert(password@ =~= Seq::<char>::empty());
                    }
                }
                let received = match header {
                    Some(h) => h.to_owned(),
                    None => String::new(),
                };
                if password == received {
                    Ok(Auth(true))
                } else {
                    Err(AuthError::WrongPassword)
                }
            },
        }
    }
}

/// The usage text served at `/`.
pub fn index() -> (usage: &'static str)
    ensures
        usage@ == "\n\tUSAGE\n\n\t\tPOST /\n\n\t\t\taccepts raw data in the body and responds with\n\t\t\tthe URL to a page containing the body's content\n\n\t\tGET /<id>\n\n\t\t\tretrieves the content for the paste with id `<id>`\n\t"@,
{
    "\n\tUSAGE\n\n\t\tPOST /\n\n\t\t\taccepts raw data in the body and responds with\n\t\t\tthe URL to a page containing the body's content\n\n\t\tGET /<id>\n\n\t\t\tretrieves the content for the paste with id `<id>`\n\t"
}

} // verus!
