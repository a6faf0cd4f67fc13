use crate::pages::{dates_wf, is_index_of, List};
use crate::types::{ArticleDataView, RawArticleData};
use vstd::prelude::*;

verus! {

/// How long the index is served before it is built again, in seconds.
pub const LIST_TTL_SECONDS: u64 = 86400;

/// A stored index generated at `generated_at` is still served at `now`.
pub open spec fn is_fresh(generated_at: int, now: int) -> bool {
    now - generated_at < LIST_TTL_SECONDS
}

/// Why the index could not be built.
#[derive(PartialEq, Eq, Structural, Clone, Copy, Debug)]
pub enum ListError {
    /// The manifest could not be fetched.
    Fetch,
    /// The manifest is not a list of article records.
    Parse,
}

/// The article index and when it was generated; served until the time-to-live
/// has passed, then built again from a fresh manifest.
pub struct ListCache {
    entry: Option<(u64, List)>,
}

/// A stored index: when it was generated, in seconds, and its entries.
pub struct StoredList {
    pub generated_at: int,
    pub articles: Seq<ArticleDataView>,
}

impl View for ListCache {
    type V = Option<StoredList>;

    closed spec fn view(&self) -> Option<StoredList> {
        match self.entry {
            Some((t, l)) => Some(StoredList { generated_at: t as int, articles: l@ }),
            None => None,
        }
    }
}

impl ListCache {
    /// A cache that holds no index yet.
    pub fn new() -> (r: Self)
        ensures
            r@ is None,
    {
        ListCache { entry: None }
    }

    /// The stored index, if one is stored and still fresh at `now` (seconds);
    /// otherwise the index must be built again.
    pub fn lookup(&self, now: u64) -> (r: Option<List>)
        ensures
            r is Some <==> (self@ matches Some(s) && is_fresh(s.generated_at, now as int)),
            r matches Some(l) ==> l@ == self@->Some_0.articles,
    {
        match &self.entry {
            Some((t, l)) => {
                if now < *t || now - *t < LIST_TTL_SECONDS {
                    Some(l.clone())
                } else {
                    None
                }
            },
            None => None,
        }
    }

    /// When the stored index was generated, if one is stored.
    pub fn generated_at(&self) -> (r: Option<u64>)
        ensures
            r is Some <==> self@ is Some,
            r matches Some(t) ==> t == self@->Some_0.generated_at,
    {
        match &self.entry {
            Some((t, _)) => Some(*t),
            None => None,
        }
    }

    /// Takes in the manifest fetched at `now`. A manifest is turned into the
    /// index, stored with `now` and returned. A failure is returned as it
    /// came and leaves the stored index as it was: it is not served past its
    /// time-to-live, and the next request tries again.
    pub fn refresh(&mut self, now: u64, manifest: Result<Vec<RawArticleData>, ListError>) -> (r: Result<List, ListError>)
        requires
            manifest matches Ok(raws) ==> dates_wf(raws@),
        ensures
            match manifest {
                Ok(raws) => {
                    &&& r matches Ok(l) && is_index_of(raws@, l@)
                    &&& final(self)@ == Some(StoredList { generated_at: now as int, articles: r->Ok_0@ })
                },
                Err(e) => r == Err::<List, ListError>(e) && final(self)@ == old(self)@,
            },
    {
        match manifest {
            Ok(raws) => {
                let list = List::from_manifest(raws);
                let served = list.clone();
                self.entry = Some((now, list));
                Ok(served)
            },
            Err(e) => Err(e),
        }
    }
}

/// An index generated at `generated_at` is served as stored for less than the
/// time-to-live after it, and built again from then on.
pub proof fn lemma_list_expires(generated_at: int, elapsed: int)
    requires
        elapsed >= 0,
    ensures
        elapsed < LIST_TTL_SECONDS ==> is_fresh(generated_at, generated_at + elapsed),
        elapsed >= LIST_TTL_SECONDS ==> !is_fresh(generated_at, generated_at + elapsed),
{
}

} // verus!
