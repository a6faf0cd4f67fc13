use crate::types::BlogParams;
use vstd::prelude::*;

verus! {

/// Where the article sources live.
pub open spec fn source_base() -> Seq<char> {
    "https://raw.githubusercontent.com/ming900518/articles/"@
}

/// Where the manifest lives.
pub open spec fn manifest_location() -> Seq<char> {
    "https://raw.githubusercontent.com/ming900518/articles/main/article.json"@
}

/// The address of the manifest.
pub fn manifest_url() -> (r: String)
    ensures
        r@ == manifest_location(),
{
    String::from_str("https://raw.githubusercontent.com/ming900518/articles/main/article.json")
}

/// Names an article: a file of the source at a commit or branch.
pub struct ArticleKey {
    pub filename: String,
    pub reference: String,
}

impl View for ArticleKey {
    type V = (Seq<char>, Seq<char>);

    open spec fn view(&self) -> (Seq<char>, Seq<char>) {
        (self.filename@, self.reference@)
    }
}

impl ArticleKey {
    /// The key of a request.
    pub fn from_params(p: &BlogParams) -> (r: Self)
        ensures
            r@ == (p.filename@, p.commit@),
    {
        ArticleKey { filename: p.filename.clone(), reference: p.commit.clone() }
    }

    /// The address of the article's source: the base, then the reference, then the file.
    pub fn source_url(&self) -> (r: String)
        ensures
            r@ == source_base() + self.reference@ + "/"@ + self.filename@,
    {
        let mut url = String::from_str("https://raw.githubusercontent.com/ming900518/articles/");
        url.append(self.reference.as_str());
        url.append("/");
        url.append(self.filename.as_str());
        url
    }

    pub(crate) fn copy(&self) -> (r: Self)
        ensures
            r@ == self@,
    {
        ArticleKey { filename: self.filename.clone(), reference: self.reference.clone() }
    }

    pub(crate) fn same(&self, other: &ArticleKey) -> (r: bool)
        ensures
            r == (self@ == other@),
    {
        self.filename == other.filename && self.reference == other.reference
    }
}

/// Why the source gave no usable text.
#[derive(PartialEq, Eq, Structural, Clone, Copy, Debug)]
pub enum FetchError {
    /// The request did not complete.
    Network,
    /// The body could not be read as text.
    Decode,
}

/// What the source answered: the HTTP status and the body.
pub struct SourceResponse {
    pub status: u16,
    pub body: String,
}

/// The text of a fetch, where it succeeded: a 2xx status and a non-empty body.
pub open spec fn usable_text(fetched: Result<SourceResponse, FetchError>) -> Option<Seq<char>> {
    match fetched {
        Ok(resp) => if 200 <= resp.status < 300 && resp.body@.len() > 0 {
            Some(resp.body@)
        } else {
            None
        },
        Err(_) => None,
    }
}

} // verus!
