use crate::date::{date_text, ArticleDate};
use crate::text::same_text;
use vstd::prelude::*;

verus! {

/// Colour themes a reader can pick.
#[derive(PartialEq, Eq, Structural, Clone, Copy, Debug, Hash)]
pub enum Theme {
    Chisaki,
    Light,
    Retro,
    Coffee,
    Dark,
    Dracula,
}

/// What `str::to_lowercase` returns for a string.
pub uninterp spec fn lowercase_of(s: Seq<char>) -> Seq<char>;

/// Relies on `str::to_lowercase`: the result depends on the characters alone.
#[verifier::external_body]
fn to_lowercase(s: &str) -> (r: String)
    ensures
        r@ == lowercase_of(s@),
{
    s.to_lowercase()
}

/// The theme a lower-case name stands for; unknown names give the default theme.
pub open spec fn theme_named(name: Seq<char>) -> Theme {
    if name == "light"@ {
        Theme::Light
    } else if name == "retro"@ {
        Theme::Retro
    } else if name == "coffee"@ {
        Theme::Coffee
    } else if name == "dark"@ {
        Theme::Dark
    } else if name == "dracula"@ {
        Theme::Dracula
    } else {
        Theme::Chisaki
    }
}

/// The lower-case name of a theme.
pub open spec fn theme_name(t: Theme) -> Seq<char> {
    match t {
        Theme::Chisaki => "chisaki"@,
        Theme::Light => "light"@,
        Theme::Retro => "retro"@,
        Theme::Coffee => "coffee"@,
        Theme::Dark => "dark"@,
        Theme::Dracula => "dracula"@,
    }
}

impl Theme {
    /// The theme for a lower-case name.
    pub fn from_lowercase_name(name: &str) -> (r: Theme)
        ensures
            r == theme_named(name@),
    {
        if same_text(name, "light") {
            Theme::Light
        } else if same_text(name, "retro") {
            Theme::Retro
        } else if same_text(name, "coffee") {
            Theme::Coffee
        } else if same_text(name, "dark") {
            Theme::Dark
        } else if same_text(name, "dracula") {
            Theme::Dracula
        } else {
            Theme::Chisaki
        }
    }

    /// The theme's lower-case name.
    pub fn name(&self) -> (r: &'static str)
        ensures
            r@ == theme_name(*self),
    {
        match self {
            Theme::Chisaki => "chisaki",
            Theme::Light => "light",
            Theme::Retro => "retro",
            Theme::Coffee => "coffee",
            Theme::Dark => "dark",
            Theme::Dracula => "dracula",
        }
    }
}

impl From<&str> for Theme {
    /// The theme named by `value`, in any case; unknown names give the default theme.
    fn from(value: &str) -> (r: Theme) {
        let lower = to_lowercase(value);
        Theme::from_lowercase_name(lower.as_str())
    }
}

impl vstd::std_specs::convert::FromSpecImpl<&str> for Theme {
    open spec fn obeys_from_spec() -> bool {
        true
    }

    open spec fn from_spec(v: &str) -> Theme {
        theme_named(lowercase_of(v@))
    }
}

/// Title and HTML body of a rendered article.
pub struct BlogArticleContent {
    pub title: String,
    pub content: String,
}

/// A rendered article as text: its title and its HTML.
pub struct ContentView {
    pub title: Seq<char>,
    pub content: Seq<char>,
}

impl View for BlogArticleContent {
    type V = ContentView;

    open spec fn view(&self) -> ContentView {
        ContentView { title: self.title@, content: self.content@ }
    }
}

impl Clone for BlogArticleContent {
    fn clone(&self) -> (r: Self)
        ensures
            r@ == self@,
    {
        BlogArticleContent { title: self.title.clone(), content: self.content.clone() }
    }
}

/// A rendered page body.
pub struct RenderedArticle {
    pub content: String,
}

/// The branch of the article source used when a request names no commit.
pub open spec fn default_reference() -> Seq<char> {
    "main"@
}

/// The name of the default branch of the article source.
pub fn default_branch() -> (r: String)
    ensures
        r@ == default_reference(),
{
    String::from_str("main")
}

/// The text of an optional string.
pub open spec fn optional_text(o: Option<String>) -> Option<Seq<char>> {
    match o {
        Some(s) => Some(s@),
        None => None,
    }
}

fn copy_optional(o: &Option<String>) -> (r: Option<String>)
    ensures
        optional_text(r) == optional_text(*o),
{
    match o {
        Some(s) => Some(s.clone()),
        None => None,
    }
}

/// One record of the article manifest, with its publication time.
pub struct RawArticleData {
    pub name: String,
    pub date: ArticleDate,
    pub url: String,
    pub intro: Option<String>,
    pub commit: String,
}

impl RawArticleData {
    /// A manifest record; a record that names no commit refers to the default branch.
    pub fn new(name: String, date: ArticleDate, url: String, intro: Option<String>, commit: Option<String>) -> (r: Self)
        ensures
            r.name@ == name@,
            r.date == date,
            r.url@ == url@,
            optional_text(r.intro) == optional_text(intro),
            r.commit@ == match commit {
                Some(c) => c@,
                None => default_reference(),
            },
    {
        let commit = match commit {
            Some(c) => c,
            None => default_branch(),
        };
        RawArticleData { name, date, url, intro, commit }
    }
}

/// An entry of the article index, its date written as `YYYY/MM/DD`.
pub struct ArticleData {
    pub name: String,
    pub date: String,
    pub url: String,
    pub intro: Option<String>,
    pub commit: String,
}

/// An index entry as text.
pub struct ArticleDataView {
    pub name: Seq<char>,
    pub date: Seq<char>,
    pub url: Seq<char>,
    pub intro: Option<Seq<char>>,
    pub commit: Seq<char>,
}

impl View for ArticleData {
    type V = ArticleDataView;

    open spec fn view(&self) -> ArticleDataView {
        ArticleDataView {
            name: self.name@,
            date: self.date@,
            url: self.url@,
            intro: optional_text(self.intro),
            commit: self.commit@,
        }
    }
}

/// The index entry for a manifest record.
pub open spec fn summary_of(raw: RawArticleData) -> ArticleDataView {
    ArticleDataView {
        name: raw.name@,
        date: date_text(raw.date.ymd().0, raw.date.ymd().1, raw.date.ymd().2),
        url: raw.url@,
        intro: optional_text(raw.intro),
        commit: raw.commit@,
    }
}

impl ArticleData {
    /// The index entry for a manifest record: the same fields, the date
    /// written as `YYYY/MM/DD` at the record's own offset.
    pub fn from_raw(raw: RawArticleData) -> (r: Self)
        requires
            raw.date.wf(),
        ensures
            r@ == summary_of(raw),
    {
        let date = raw.date.format();
        ArticleData { name: raw.name, date, url: raw.url, intro: raw.intro, commit: raw.commit }
    }
}

impl Clone for ArticleData {
    fn clone(&self) -> (r: Self)
        ensures
            r@ == self@,
    {
        ArticleData {
            name: self.name.clone(),
            date: self.date.clone(),
            url: self.url.clone(),
            intro: copy_optional(&self.intro),
            commit: self.commit.clone(),
        }
    }
}

/// The query of an article request: which file, at which commit or branch.
pub struct BlogParams {
    pub filename: String,
    pub commit: String,
}

impl BlogParams {
    /// The parameters of a request; one that names no commit refers to the default branch.
    pub fn from_query(filename: String, commit: Option<String>) -> (r: Self)
        ensures
            r.filename@ == filename@,
            r.commit@ == match commit {
                Some(c) => c@,
                None => default_reference(),
            },
    {
        let commit = match commit {
            Some(c) => c,
            None => default_branch(),
        };
        BlogParams { filename, commit }
    }
}

} // verus!
