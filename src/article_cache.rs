use crate::pages::{error_page, rendered_page, render_article, Article};
use crate::source::{usable_text, ArticleKey, FetchError, SourceResponse};
use crate::types::{BlogArticleContent, ContentView};
use vstd::prelude::*;

verus! {

/// The rendered articles once a fetch for `key` has come back: a text is
/// rendered and stored under `key`, a failure leaves the store as it was.
pub open spec fn pages_after_fetch(
    pages: Map<(Seq<char>, Seq<char>), ContentView>,
    key: (Seq<char>, Seq<char>),
    text: Option<Seq<char>>,
) -> Map<(Seq<char>, Seq<char>), ContentView> {
    match text {
        Some(raw) => pages.insert(key, rendered_page(raw)),
        None => pages,
    }
}

/// The page served once a fetch has come back.
pub open spec fn page_after_fetch(text: Option<Seq<char>>) -> ContentView {
    match text {
        Some(raw) => rendered_page(raw),
        None => error_page(),
    }
}

/// Keys whose source is being fetched, each once.
struct PendingKeys {
    keys: Vec<ArticleKey>,
    set: Ghost<Set<(Seq<char>, Seq<char>)>>,
}

impl PendingKeys {
    spec fn wf(&self) -> bool {
        &&& forall|i: int| 0 <= i < self.keys@.len() ==> self.set@.contains(#[trigger] self.keys@[i]@)
        &&& forall|i: int, j: int|
            0 <= i < j < self.keys@.len() ==> #[trigger] self.keys@[i]@ != #[trigger] self.keys@[j]@
        &&& forall|k: (Seq<char>, Seq<char>)|
            #[trigger] self.set@.contains(k) ==> exists|i: int|
                0 <= i < self.keys@.len() && #[trigger] self.keys@[i]@ == k
    }

    fn new() -> (r: Self)
        ensures
            r.wf(),
            r.set@ == Set::<(Seq<char>, Seq<char>)>::empty(),
    {
        PendingKeys { keys: Vec::new(), set: Ghost(Set::empty()) }
    }

    fn position(&self, key: &ArticleKey) -> (r: Option<usize>)
        requires
            self.wf(),
        ensures
            match r {
                Some(i) => i < self.keys@.len() && self.keys@[i as int]@ == key@,
                None => !self.set@.contains(key@),
            },
    {
        let mut i: usize = 0;
        while i < self.keys.len()
            invariant
                i <= self.keys@.len(),
                forall|j: int| 0 <= j < i ==> self.keys@[j]@ != key@,
            decreases self.keys@.len() - i,
        {
            if self.keys[i].same(key) {
                return Some(i);
            }
            i = i + 1;
        }
        None
    }

    fn insert(&mut self, key: ArticleKey)
        requires
            old(self).wf(),
            !old(self).set@.contains(key@),
        ensures
            final(self).wf(),
            final(self).set@ == old(self).set@.insert(key@),
    {
        let ghost k = key@;
        let ghost old_keys = self.keys@;
        let ghost old_set = self.set@;
        self.keys.push(key);
        proof {
            self.set@ = self.set@.insert(k);
            let n = old_keys.len();
            assert(self.keys@[n as int]@ == k);
            assert forall|i: int| 0 <= i < self.keys@.len() implies self.set@.contains(#[trigger] self.keys@[i]@) by {
                if i < n {
                    assert(self.keys@[i] == old_keys[i]);
                }
            }
            assert forall|a: int, b: int| 0 <= a < b < self.keys@.len() implies #[trigger] self.keys@[a]@
                != #[trigger] self.keys@[b]@ by {
                assert(self.keys@[a] == old_keys[a]);
                assert(old_set.contains(old_keys[a]@));
                if b < n {
                    assert(self.keys@[b] == old_keys[b]);
                }
            }
            assert forall|x: (Seq<char>, Seq<char>)| #[trigger] self.set@.contains(x) implies exists|i: int|
                0 <= i < self.keys@.len() && #[trigger] self.keys@[i]@ == x by {
                if x != k {
                    let i = choose|i: int| 0 <= i < old_keys.len() && #[trigger] old_keys[i]@ == x;
                    assert(self.keys@[i] == old_keys[i]);
                }
            }
        }
    }

    fn remove(&mut self, key: &ArticleKey)
        requires
            old(self).wf(),
        ensures
            final(self).wf(),
            final(self).set@ == old(self).set@.remove(key@),
    {
        match self.position(key) {
            Some(i) => {
                let ghost old_keys = self.keys@;
                let ghost old_set = self.set@;
                self.keys.remove(i);
                proof {
                    self.set@ = self.set@.remove(key@);
                    assert forall|j: int| 0 <= j < self.keys@.len() implies self.set@.contains(#[trigger] self.keys@[j]@) by {
                        if j < i {
                            assert(self.keys@[j] == old_keys[j]);
                            assert(old_keys[j]@ != old_keys[i as int]@);
                        } else {
                            assert(self.keys@[j] == old_keys[j + 1]);
                            assert(old_keys[i as int]@ != old_keys[j + 1]@);
                        }
                    }
                    assert forall|a: int, b: int| 0 <= a < b < self.keys@.len() implies #[trigger] self.keys@[a]@
                        != #[trigger] self.keys@[b]@ by {
                        let oa = if a < i { a } else { a + 1 };
                        let ob = if b < i { b } else { b + 1 };
                        assert(self.keys@[a] == old_keys[oa]);
                        assert(self.keys@[b] == old_keys[ob]);
                        assert(old_keys[oa]@ != old_keys[ob]@);
                    }
                    assert forall|x: (Seq<char>, Seq<char>)| #[trigger] self.set@.contains(x) implies exists|j: int|
                        0 <= j < self.keys@.len() && #[trigger] self.keys@[j]@ == x by {
                        let j = choose|j: int| 0 <= j < old_keys.len() && #[trigger] old_keys[j]@ == x;
                        assert(j != i);
                        if j < i {
                            assert(self.keys@[j] == old_keys[j]);
                        } else {
                            assert(self.keys@[j - 1] == old_keys[j]);
                        }
                    }
                }
            },
            None => {
                assert(self.set@.remove(key@) =~= self.set@);
            },
        }
    }
}

/// What to do with a request for an article.
pub enum ArticleStep {
    /// The article is stored: serve it.
    Cached(Article),
    /// Nobody is fetching it: fetch it, then hand the answer to `complete`.
    Fetch,
    /// Another request is fetching it: wait for that one, then ask again.
    Wait,
}

/// Rendered articles by key. Articles do not change at a given commit, so an
/// entry, once stored, is served for the cache's lifetime; failed fetches are
/// never stored. The cache also knows which keys are being fetched, so that
/// concurrent requests for one key make a single fetch.
pub struct ArticleCache {
    entries: Vec<(ArticleKey, BlogArticleContent)>,
    pages: Ghost<Map<(Seq<char>, Seq<char>), ContentView>>,
    pending: PendingKeys,
}

impl View for ArticleCache {
    type V = Map<(Seq<char>, Seq<char>), ContentView>;

    closed spec fn view(&self) -> Map<(Seq<char>, Seq<char>), ContentView> {
        self.pages@
    }
}

impl ArticleCache {
    /// The keys whose source is being fetched.
    pub closed spec fn in_flight(&self) -> Set<(Seq<char>, Seq<char>)> {
        self.pending.set@
    }

    /// Each stored key appears once, and the entries are exactly the view.
    pub closed spec fn wf(&self) -> bool {
        &&& self.pending.wf()
        &&& forall|i: int|
            0 <= i < self.entries@.len() ==> {
                &&& self.pages@.contains_key(#[trigger] self.entries@[i].0@)
                &&& self.pages@[self.entries@[i].0@] == self.entries@[i].1@
            }
        &&& forall|i: int, j: int|
            0 <= i < j < self.entries@.len() ==> #[trigger] self.entries@[i].0@ != #[trigger] self.entries@[j].0@
        &&& forall|k: (Seq<char>, Seq<char>)|
            #[trigger] self.pages@.contains_key(k) ==> exists|i: int|
                0 <= i < self.entries@.len() && #[trigger] self.entries@[i].0@ == k
    }

    /// An empty cache.
    pub fn new() -> (r: Self)
        ensures
            r.wf(),
            r@ == Map::<(Seq<char>, Seq<char>), ContentView>::empty(),
            r.in_flight() == Set::<(Seq<char>, Seq<char>)>::empty(),
    {
        ArticleCache { entries: Vec::new(), pages: Ghost(Map::empty()), pending: PendingKeys::new() }
    }

    fn position(&self, key: &ArticleKey) -> (r: Option<usize>)
        requires
            self.wf(),
        ensures
            match r {
                Some(i) => i < self.entries@.len() && self.entries@[i as int].0@ == key@,
                None => !self@.contains_key(key@),
            },
    {
        let mut i: usize = 0;
        while i < self.entries.len()
            invariant
                i <= self.entries@.len(),
                forall|j: int| 0 <= j < i ==> self.entries@[j].0@ != key@,
            decreases self.entries@.len() - i,
        {
            if self.entries[i].0.same(key) {
                return Some(i);
            }
            i = i + 1;
        }
        None
    }

    /// The stored page for `key`, if any: no fetch is needed then.
    pub fn lookup(&self, key: &ArticleKey) -> (r: Option<Article>)
        requires
            self.wf(),
        ensures
            r is Some <==> self@.contains_key(key@),
            r matches Some(a) ==> a@ == self@[key@],
    {
        match self.position(key) {
            Some(i) => Some(Article::from_content(&self.entries[i].1)),
            None => None,
        }
    }

    /// Decides a request for `key`: serve the stored article, or fetch it
    /// (and mark it as being fetched), or wait for the request that fetches it.
    pub fn begin(&mut self, key: &ArticleKey) -> (r: ArticleStep)
        requires
            old(self).wf(),
        ensures
            final(self).wf(),
            final(self)@ == old(self)@,
            old(self)@.contains_key(key@) ==> (r matches ArticleStep::Cached(a) && a@ == old(self)@[key@])
                && final(self).in_flight() == old(self).in_flight(),
            !old(self)@.contains_key(key@) && old(self).in_flight().contains(key@) ==> r is Wait
                && final(self).in_flight() == old(self).in_flight(),
            !old(self)@.contains_key(key@) && !old(self).in_flight().contains(key@) ==> r is Fetch
                && final(self).in_flight() == old(self).in_flight().insert(key@),
    {
        if let Some(found) = self.lookup(key) {
            return ArticleStep::Cached(found);
        }
        if self.pending.position(key).is_some() {
            return ArticleStep::Wait;
        }
        self.pending.insert(key.copy());
        ArticleStep::Fetch
    }

    /// Takes in what the source answered for `key`, which is then no longer
    /// being fetched. A usable text is rendered, stored under `key` (replacing
    /// what another request stored) and served; anything else serves the
    /// error page and stores nothing, so the next request for `key` fetches
    /// again.
    pub fn complete(&mut self, key: ArticleKey, fetched: Result<SourceResponse, FetchError>) -> (r: Article)
        requires
            old(self).wf(),
        ensures
            final(self).wf(),
            final(self)@ == pages_after_fetch(old(self)@, key@, usable_text(fetched)),
            r@ == page_after_fetch(usable_text(fetched)),
            final(self).in_flight() == old(self).in_flight().remove(key@),
    {
        self.pending.remove(&key);
        let resp = match fetched {
            Ok(resp) => resp,
            Err(_) => {
                return Article::error();
            },
        };
        if resp.status < 200 || resp.status >= 300 || resp.body.as_str().unicode_len() == 0 {
            return Article::error();
        }
        let content = render_article(resp.body.as_str());
        let page = Article::from_content(&content);
        let ghost view = content@;
        let ghost key_view = key@;
        match self.position(&key) {
            Some(i) => {
                let ghost old_entries = self.entries@;
                self.entries.set(i, (key, content));
                proof {
                    let old_pages = self.pages@;
                    self.pages@ = self.pages@.insert(self.entries@[i as int].0@, view);
                    assert forall|j: int| 0 <= j < self.entries@.len() implies {
                        &&& self.pages@.contains_key(#[trigger] self.entries@[j].0@)
                        &&& self.pages@[self.entries@[j].0@] == self.entries@[j].1@
                    } by {
                        if j != i {
                            assert(self.entries@[j] == old_entries[j]);
                            assert(old_entries[j].0@ != old_entries[i as int].0@);
                        }
                    }
                    assert forall|a: int, b: int| 0 <= a < b < self.entries@.len() implies #[trigger] self.entries@[a].0@
                        != #[trigger] self.entries@[b].0@ by {
                        assert(old_entries[a].0@ != old_entries[b].0@);
                    }
                    assert forall|k: (Seq<char>, Seq<char>)| #[trigger] self.pages@.contains_key(k) implies exists|j: int|
                        0 <= j < self.entries@.len() && #[trigger] self.entries@[j].0@ == k by {
                        if k == key_view {
                            assert(self.entries@[i as int].0@ == k);
                        } else {
                            assert(old_pages.contains_key(k));
                            let j = choose|j: int| 0 <= j < old_entries.len() && #[trigger] old_entries[j].0@ == k;
                            assert(self.entries@[j] == old_entries[j]);
                        }
                    }
                }
            },
            None => {
                let ghost old_entries = self.entries@;
                self.entries.push((key, content));
                proof {
                    let old_pages = self.pages@;
                    self.pages@ = self.pages@.insert(key_view, view);
                    let n = old_entries.len();
                    assert(self.entries@[n as int].0@ == key_view);
                    assert forall|j: int| 0 <= j < self.entries@.len() implies {
                        &&& self.pages@.contains_key(#[trigger] self.entries@[j].0@)
                        &&& self.pages@[self.entries@[j].0@] == self.entries@[j].1@
                    } by {
                        if j < n {
                            assert(self.entries@[j] == old_entries[j]);
                            assert(old_pages.contains_key(old_entries[j].0@));
                        }
                    }
                    assert forall|a: int, b: int| 0 <= a < b < self.entries@.len() implies #[trigger] self.entries@[a].0@
                        != #[trigger] self.entries@[b].0@ by {
                        assert(self.entries@[a] == old_entries[a]);
                        assert(old_pages.contains_key(old_entries[a].0@));
                        if b < n {
                            assert(self.entries@[b] == old_entries[b]);
                        }
                    }
                    assert forall|k: (Seq<char>, Seq<char>)| #[trigger] self.pages@.contains_key(k) implies exists|j: int|
                        0 <= j < self.entries@.len() && #[trigger] self.entries@[j].0@ == k by {
                        if k != key_view {
                            assert(old_pages.contains_key(k));
                            let j = choose|j: int| 0 <= j < old_entries.len() && #[trigger] old_entries[j].0@ == k;
                            assert(self.entries@[j] == old_entries[j]);
                        }
                    }
                }
            },
        }
        page
    }
}

/// A fetch that brought a usable text stores the page it served: a second
/// request for the same key finds it stored, is served the same page, and
/// fetches nothing.
pub proof fn lemma_second_request_is_cached(
    pages: Map<(Seq<char>, Seq<char>), ContentView>,
    key: (Seq<char>, Seq<char>),
    fetched: Result<SourceResponse, FetchError>,
)
    requires
        usable_text(fetched) is Some,
    ensures
        pages_after_fetch(pages, key, usable_text(fetched)).contains_key(key),
        pages_after_fetch(pages, key, usable_text(fetched))[key] == page_after_fetch(usable_text(fetched)),
{
}

/// A failed fetch is not stored: the failing request is served the error
/// page, the key stays unknown so the next request fetches again, and when
/// that fetch succeeds the article is rendered, stored and served.
pub proof fn lemma_failure_is_not_cached(
    pages: Map<(Seq<char>, Seq<char>), ContentView>,
    key: (Seq<char>, Seq<char>),
    failed: Result<SourceResponse, FetchError>,
    succeeded: Result<SourceResponse, FetchError>,
)
    requires
        !pages.contains_key(key),
        usable_text(failed) is None,
        usable_text(succeeded) is Some,
    ensures
        page_after_fetch(usable_text(failed)) == error_page(),
        !pages_after_fetch(pages, key, usable_text(failed)).contains_key(key),
        page_after_fetch(usable_text(succeeded)) == rendered_page(usable_text(succeeded)->Some_0),
        pages_after_fetch(pages_after_fetch(pages, key, usable_text(failed)), key, usable_text(succeeded))[key]
            == rendered_page(usable_text(succeeded)->Some_0),
{
}

} // verus!
