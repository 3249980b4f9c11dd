//! Embeds: link-preview pages stored by identifier.

pub mod embed_id;

use vstd::prelude::*;
use super::filepath;
use super::gateway::auth::AuthState;

verus! {

/// The values an embed page is rendered with.
pub struct TemplateContext {
    pub id: String,
    pub site_name: String,
    pub title: String,
    pub color: String,
    pub description: String,
    pub image: String,
}

/// Column `k` of a stored row (`None`: absent or not text), read as the empty
/// text where it cannot be read.
pub open spec fn column_text(columns: Seq<Option<String>>, k: int) -> Seq<char> {
    if 0 <= k < columns.len() && columns[k] is Some {
        columns[k]->Some_0@
    } else {
        Seq::empty()
    }
}

/// A column that holds text is taken whole, whatever its length; only an
/// absent or unreadable column gives the empty text.
pub proof fn lemma_column_taken_whole(columns: Seq<Option<String>>, k: int)
    ensures
        0 <= k < columns.len() ==> (columns[k] matches Some(t) ==> column_text(columns, k) == t@),
        0 <= k < columns.len() ==> (columns[k] matches Some(t) ==> column_text(columns, k).len()
            == t@.len()),
        !(0 <= k < columns.len() && columns[k] is Some) ==> column_text(columns, k).len() == 0,
{
}

/// Column `k`, or an empty text.
fn column(columns: &Vec<Option<String>>, k: usize) -> (text: String)
    ensures
        text@ == column_text(columns@, k as int),
{
    if k < columns.len() {
        match &columns[k] {
            Some(text) => text.clone(),
            None => String::new(),
        }
    } else {
        String::new()
    }
}

impl TemplateContext {
    /// The context of a stored row whose columns are, in order, `id`,
    /// `site_name`, `title`, `color`, `description`, `image`; a column that
    /// cannot be read as text gives the empty text.
    pub fn from_columns(columns: &Vec<Option<String>>) -> (c: TemplateContext)
        ensures
            c.id@ == column_text(columns@, 0),
            c.site_name@ == column_text(columns@, 1),
            c.title@ == column_text(columns@, 2),
            c.color@ == column_text(columns@, 3),
            c.description@ == column_text(columns@, 4),
            c.image@ == column_text(columns@, 5),
            columns@.len() > 0 ==> (columns@[0] matches Some(t) ==> c.id@ == t@),
            columns@.len() > 1 ==> (columns@[1] matches Some(t) ==> c.site_name@ == t@),
            columns@.len() > 2 ==> (columns@[2] matches Some(t) ==> c.title@ == t@),
            columns@.len() > 3 ==> (columns@[3] matches Some(t) ==> c.color@ == t@),
            columns@.len() > 4 ==> (columns@[4] matches Some(t) ==> c.description@ == t@),
            columns@.len() > 5 ==> (columns@[5] matches Some(t) ==> c.image@ == t@),
    {
        TemplateContext {
            id: column(columns, 0),
            site_name: column(columns, 1),
            title: column(columns, 2),
            color: column(columns, 3),
            description: column(columns, 4),
            image: column(columns, 5),
        }
    }
}

/// A template to render and the values to render it with.
pub struct Page {
    pub template: &'static str,
    pub context: TemplateContext,
}

/// The page served at `/embed`: the upload form for a logged-in visitor, a
/// notice otherwise.
pub fn index(auth: AuthState, current_dir: &str) -> (path: String)
    ensures
        path@ == current_dir@ + (if auth.valid {
            "/static/embeds/post.html"@
        } else {
            "/static/embeds/noauth.html"@
        }),
{
    if auth.valid {
        filepath(current_dir, "/static/embeds/post.html")
    } else {
        filepath(current_dir, "/static/embeds/noauth.html")
    }
}

/// What `/embed/<id>` answers, given the stored row for `id` (`None`: no
/// such row): the `embed` template with that row, or status 404.
pub fn retrieve(row: Option<TemplateContext>) -> (r: Result<Page, u16>)
    ensures
        row is None <==> r == Err::<Page, u16>(404),
        r is Ok <==> row is Some,
        r matches Ok(p) ==> p.template@ == "embed"@ && Some(p.context) == row,
{
    match row {
        None => Err(404),
        Some(context) => Ok(Page { template: "embed", context }),
    }
}

/// What `/embed/<id>/raw` answers: as `retrieve`, with the `embedraw` template.
pub fn retrieve_raw(row: Option<TemplateContext>) -> (r: Result<Page, u16>)
    ensures
        row is None <==> r == Err::<Page, u16>(404),
        r is Ok <==> row is Some,
        r matches Ok(p) ==> p.template@ == "embedraw"@ && Some(p.context) == row,
{
    match row {
        None => Err(404),
        Some(context) => Ok(Page { template: "embedraw", context }),
    }
}

/// What an upload answers, given whether the new row was stored and, if it
/// was, the row read back for its identifier: status 409 when storing failed,
/// otherwise what `retrieve` answers for that row.
pub fn upload(inserted: bool, row: Option<TemplateContext>) -> (r: Result<Page, u16>)
    ensures
        !inserted ==> r == Err::<Page, u16>(409),
        inserted ==> (row is None <==> r == Err::<Page, u16>(404)),
        inserted ==> (r matches Ok(p) ==> p.template@ == "embed"@ && Some(p.context) == row),
        inserted ==> (r is Ok <==> row is Some),
{
    if !inserted {
        Err(409)
    } else {
        retrieve(row)
    }
}

} // verus!
