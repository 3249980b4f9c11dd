//! The content section.

use vstd::prelude::*;
use super::filepath;
use super::gateway::auth::AuthState;

verus! {

/// The page served at `/content`: the posting form for a logged-in visitor,
/// a notice otherwise.
pub fn index(auth: AuthState, current_dir: &str) -> (path: String)
    ensures
        path@ == current_dir@ + (if auth.valid {
            "/static/content/post.html"@
        } else {
            "/static/content/noauth.html"@
        }),
{
    if auth.valid {
        filepath(current_dir, "/static/content/post.html")
    } else {
        filepath(current_dir, "/static/content/noauth.html")
    }
}

} // verus!
