use crate::markdown::{article_settings, html_of, markdown_to_html, MarkdownOptions};
use crate::order::{is_newest_first, newest_first_order};
use crate::text::{article_markdown, article_title, split_article};
use crate::types::{summary_of, ArticleData, ArticleDataView, BlogArticleContent, ContentView, RawArticleData};
use vstd::prelude::*;

verus! {

/// An article page: its title and its HTML body.
pub struct Article {
    title: String,
    content: String,
}

impl View for Article {
    type V = ContentView;

    closed spec fn view(&self) -> ContentView {
        ContentView { title: self.title@, content: self.content@ }
    }
}

/// The page shown when an article cannot be fetched.
pub open spec fn error_page() -> ContentView {
    ContentView {
        title: "錯誤"@,
        content: "<p>請確認網址是否正確，網路環境是否暢通<br>如有疑問請<a href=\"mailto:mail@mingchang.tw\">與我聯繫</a></p><p>{}</p>"@,
    }
}

/// The page for an article source: the title of its first line and the HTML of its body.
pub open spec fn rendered_page(raw: Seq<char>) -> ContentView {
    ContentView {
        title: article_title(raw),
        content: html_of(article_markdown(raw), article_settings()),
    }
}

impl Article {
    /// A page with the given title and HTML body.
    pub fn success(title: String, content: String) -> (r: Self)
        ensures
            r@.title == title@,
            r@.content == content@,
    {
        Article { title, content }
    }

    /// The page shown when an article cannot be fetched.
    pub fn error() -> (r: Self)
        ensures
            r@ == error_page(),
    {
        Article {
            title: String::from_str("錯誤"),
            content: String::from_str(
                "<p>請確認網址是否正確，網路環境是否暢通<br>如有疑問請<a href=\"mailto:mail@mingchang.tw\">與我聯繫</a></p><p>{}</p>",
            ),
        }
    }

    /// The page of a rendered article.
    pub fn from_content(c: &BlogArticleContent) -> (r: Self)
        ensures
            r@ == c@,
    {
        Article { title: c.title.clone(), content: c.content.clone() }
    }

    /// The page's title.
    pub fn title(&self) -> (r: &str)
        ensures
            r@ == self@.title,
    {
        self.title.as_str()
    }

    /// The page's HTML body.
    pub fn content(&self) -> (r: &str)
        ensures
            r@ == self@.content,
    {
        self.content.as_str()
    }
}

/// Renders an article source: the title from its first line, the body from
/// the rest, as markdown turned into HTML with the article options.
pub fn render_article(raw: &str) -> (r: BlogArticleContent)
    ensures
        r@ == rendered_page(raw@),
{
    let (title, markdown) = split_article(raw);
    let options = MarkdownOptions::for_articles();
    let content = markdown_to_html(markdown.as_str(), &options);
    BlogArticleContent { title, content }
}

/// The article index, newest first.
pub struct List {
    articles: Vec<ArticleData>,
}

impl View for List {
    type V = Seq<ArticleDataView>;

    closed spec fn view(&self) -> Seq<ArticleDataView> {
        self.articles@.map_values(|a: ArticleData| a@)
    }
}

/// The publication instants of manifest records.
pub open spec fn instants(raws: Seq<RawArticleData>) -> Seq<i128> {
    Seq::new(raws.len(), |i: int| raws[i].date.instant() as i128)
}

/// Each record's date is well formed.
pub open spec fn dates_wf(raws: Seq<RawArticleData>) -> bool {
    forall|i: int| 0 <= i < raws.len() ==> #[trigger] raws[i].date.wf()
}

/// `list` holds the summaries of `raws` newest first (an ascending stable
/// sort by instant, reversed).
pub open spec fn is_index_of(raws: Seq<RawArticleData>, list: Seq<ArticleDataView>) -> bool {
    exists|order: Seq<usize>|
        {
            &&& is_newest_first(instants(raws), order)
            &&& list.len() == order.len()
            &&& forall|i: int|
                0 <= i < list.len() ==> #[trigger] list[i] == summary_of(raws[order[i] as int])
        }
}

impl List {
    /// The index of a manifest: each record summarised, newest first.
    pub fn from_manifest(raws: Vec<RawArticleData>) -> (r: Self)
        requires
            dates_wf(raws@),
        ensures
            is_index_of(raws@, r@),
    {
        let ghost records = raws@;
        let n = raws.len();
        let mut keys: Vec<i128> = Vec::new();
        let mut i: usize = 0;
        while i < n
            invariant
                i <= n,
                n == raws@.len(),
                keys@.len() == i,
                forall|j: int| 0 <= j < i ==> keys@[j] == instants(raws@)[j],
            decreases n - i,
        {
            keys.push(raws[i].date.unix_nanos());
            i = i + 1;
        }
        assert(keys@ =~= instants(raws@));
        let order = newest_first_order(&keys);
        let mut summaries: Vec<ArticleData> = Vec::new();
        for raw in it: raws.into_iter()
            invariant
                it.seq() == records,
                dates_wf(records),
                summaries@.len() == it.index(),
                forall|j: int| 0 <= j < it.index() ==> #[trigger] summaries@[j]@ == summary_of(records[j]),
        {
            assert(records[it.index() as int].date.wf());
            summaries.push(ArticleData::from_raw(raw));
        }
        let mut articles: Vec<ArticleData> = Vec::new();
        let mut k: usize = 0;
        while k < n
            invariant
                k <= n,
                n == records.len(),
                summaries@.len() == n,
                is_newest_first(instants(records), order@),
                forall|j: int| 0 <= j < n ==> #[trigger] summaries@[j]@ == summary_of(records[j]),
                articles@.len() == k,
                forall|j: int| 0 <= j < k ==> #[trigger] articles@[j]@ == summary_of(records[order@[j] as int]),
            decreases n - k,
        {
            let idx = order[k];
            articles.push(summaries[idx].clone());
            k = k + 1;
        }
        let r = List { articles };
        assert(forall|j: int| 0 <= j < r@.len() ==> #[trigger] r@[j] == summary_of(records[order@[j] as int]));
        r
    }

    /// The number of entries.
    pub fn len(&self) -> (r: usize)
        ensures
            r == self@.len(),
    {
        self.articles.len()
    }

    /// The entry at position `i`.
    pub fn get(&self, i: usize) -> (r: &ArticleData)
        requires
            i < self@.len(),
        ensures
            r@ == self@[i as int],
    {
        &self.articles[i]
    }
}

impl Clone for List {
    fn clone(&self) -> (r: Self)
        ensures
            r@ == self@,
    {
        let mut articles: Vec<ArticleData> = Vec::new();
        let mut i: usize = 0;
        while i < self.articles.len()
            invariant
                i <= self.articles@.len(),
                articles@.len() == i,
                forall|j: int| 0 <= j < i ==> #[trigger] articles@[j]@ == self.articles@[j]@,
            decreases self.articles@.len() - i,
        {
            articles.push(self.articles[i].clone());
            i = i + 1;
        }
        let r = List { articles };
        assert(r@ =~= self@);
        r
    }
}

/// What a page shows: the article index or one article.
pub enum PageRoute {
    List { list: List },
    Article { article: Article },
}

/// A whole page of the site.
pub struct Index {
    pub route: PageRoute,
}

} // verus!
