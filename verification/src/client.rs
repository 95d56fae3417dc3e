//! The client core: a rotating pool of mirror servers, classification of
//! transport outcomes into retry/fail signals, the write-once trending
//! cache, and the dual-cursor search cache that stitches backend batches
//! into fixed-size caller pages.
//!
//! The HTTP transport lives outside the library. A caller performs the GET
//! itself and hands the outcome in as a plain value (`HttpOutcome`); the
//! decision logic here is what is verified.

use vstd::prelude::*;
use vstd::string::StrSliceExecFns;
use vstd::string::StringExecFns;

use crate::digits::dec_digits;
use crate::digits::u64_to_dec;
use crate::music::copy_units;
use crate::music::MusicUnit;

verus! {

/// Number of items in one caller page.
pub const ITEM_PER_PAGE: usize = 10;

/// How a request chain ended: a transient failure with budget left (the
/// pool has been rotated; the caller may re-invoke), a terminal failure,
/// or the normal end-of-results pagination signal.
#[derive(Clone, Copy, Debug, PartialEq, Eq, Structural)]
pub enum ReturnAction {
    Retry,
    Failed,
    EOR,
}

/// What the transport handed back for one request.
#[derive(Debug)]
pub enum HttpOutcome<T> {
    /// The body arrived and deserialized into the expected shape.
    Parsed(T),
    /// The body arrived but did not deserialize; retrying is futile.
    Malformed,
    /// The request itself failed: connection error or timeout.
    TransportError,
}

/// The next move for a search page: either the cached batch already held
/// the full page, or a backend fetch is required against the given path,
/// with the items already carried over from the cached batch.
#[derive(Debug)]
pub enum SearchStep {
    Ready(Vec<MusicUnit>),
    Fetch(String, Vec<MusicUnit>),
}

/// The client state: mirror pool, trending cache, and search cache.
pub struct Fetcher {
    /// The trending list, present after the first successful fetch and
    /// immutable from then on.
    pub trending_now: Option<Vec<MusicUnit>>,
    /// The query whose search session the cache belongs to.
    pub search_query: String,
    /// The batch the last backend search fetch returned for `search_query`.
    pub search_batch: Vec<MusicUnit>,
    /// The last backend page requested for `search_query`; 0 when none yet.
    pub search_page: u64,
    /// The mirror base URLs, fixed at construction, never empty.
    pub servers: Vec<String>,
    /// The mirror currently targeted.
    pub active_server_index: usize,
}

/// The pool after one rotation: the next mirror, cyclically.
pub open spec fn rotated(f: Fetcher) -> Fetcher {
    Fetcher {
        active_server_index: ((f.active_server_index + 1) % (f.servers.len() as int)) as usize,
        ..f
    }
}

/// The signal a transport failure produces under a given retry budget.
pub open spec fn failure_action(budget: int) -> ReturnAction {
    if budget > 0 {
        ReturnAction::Retry
    } else {
        ReturnAction::Failed
    }
}

/// The state a transport failure leaves behind: rotated when budget
/// remains, untouched otherwise.
pub open spec fn failure_state(f: Fetcher, budget: int) -> Fetcher {
    if budget > 0 {
        rotated(f)
    } else {
        f
    }
}

/// First item index of a caller page.
pub open spec fn page_start(page: int) -> int {
    ITEM_PER_PAGE * page
}

/// One past the last item index of a caller page within `len` items.
pub open spec fn page_end(len: int, page: int) -> int {
    if len < page_start(page) + ITEM_PER_PAGE {
        len
    } else {
        page_start(page) + ITEM_PER_PAGE
    }
}

/// The items a caller page shows out of a batch: the fixed-size window,
/// clipped to the batch, empty when the page lies beyond it.
pub open spec fn page_slice(s: Seq<MusicUnit>, page: int) -> Seq<MusicUnit> {
    if page_start(page) < page_end(s.len() as int, page) {
        s.subrange(page_start(page), page_end(s.len() as int, page))
    } else {
        Seq::<MusicUnit>::empty()
    }
}

/// How many items of a fresh batch complete a partial page.
pub open spec fn fetch_take(batch_len: int, carried_len: int) -> int {
    if batch_len < ITEM_PER_PAGE - carried_len {
        batch_len
    } else {
        ITEM_PER_PAGE - carried_len
    }
}

/// The trending endpoint path.
pub open spec fn spec_trending_suffix() -> Seq<char> {
    "/trending?type=Music&region=NP&fields=videoId,title,author,lengthSeconds"@
}

/// The search endpoint path for a query and a backend page.
pub open spec fn spec_search_suffix(query: Seq<char>, backend_page: nat) -> Seq<char> {
    "/search?q="@ + query + "&type=video&region=NP&page="@ + dec_digits(backend_page)
        + "&fields=videoId,title,author,lengthSeconds"@
}

/// Character-wise string equality.
pub fn str_eq(a: &str, b: &str) -> (r: bool)
    ensures
        r == (a@ == b@),
{
    let na = a.unicode_len();
    let nb = b.unicode_len();
    if na != nb {
        return false;
    }
    let mut i: usize = 0;
    while i < na
        invariant
            i <= na,
            na == a@.len(),
            nb == b@.len(),
            na == nb,
            forall|j: int| 0 <= j < i ==> a@[j] == b@[j],
        decreases na - i,
    {
        if a.get_char(i) != b.get_char(i) {
            return false;
        }
        i = i + 1;
    }
    proof {
        assert(a@ =~= b@);
    }
    true
}

impl Fetcher {
    /// Validity: at least one server, and the active index in bounds.
    pub open spec fn wf(&self) -> bool {
        self.servers.len() > 0 && self.active_server_index < self.servers.len()
    }

    /// Whether the trending list has been fetched.
    pub open spec fn trending_cached(&self) -> bool {
        self.trending_now is Some
    }

    /// The cached trending items.
    pub open spec fn trending_items(&self) -> Seq<MusicUnit> {
        self.trending_now->0@
    }

    /// A client over the default mirror pool, with empty caches.
    pub fn new() -> (r: Fetcher)
        ensures
            r.wf(),
            r.active_server_index == 0,
            !r.trending_cached(),
            r.search_query@ == Seq::<char>::empty(),
            r.search_batch@ == Seq::<MusicUnit>::empty(),
            r.search_page == 0,
            r.servers@.len() == 6,
            r.servers@[0]@ == "https://invidious.snopyta.org/api/v1"@,
            r.servers@[1]@ == "https://vid.puffyan.us/api/v1"@,
            r.servers@[2]@ == "https://ytprivate.com/api/v1"@,
            r.servers@[3]@ == "https://ytb.trom.tf/api/v1"@,
            r.servers@[4]@ == "https://invidious.namazso.eu/api/v1"@,
            r.servers@[5]@ == "https://invidious.hub.ne.kr/api/v1"@,
    {
        let mut servers: Vec<String> = Vec::new();
        servers.push(String::from_str("https://invidious.snopyta.org/api/v1"));
        servers.push(String::from_str("https://vid.puffyan.us/api/v1"));
        servers.push(String::from_str("https://ytprivate.com/api/v1"));
        servers.push(String::from_str("https://ytb.trom.tf/api/v1"));
        servers.push(String::from_str("https://invidious.namazso.eu/api/v1"));
        servers.push(String::from_str("https://invidious.hub.ne.kr/api/v1"));
        Fetcher {
            trending_now: None,
            search_query: String::new(),
            search_batch: Vec::new(),
            search_page: 0,
            servers,
            active_server_index: 0,
        }
    }

    /// A client over a caller-chosen mirror pool, with empty caches.
    pub fn with_servers(servers: Vec<String>) -> (r: Fetcher)
        requires
            servers@.len() > 0,
        ensures
            r.wf(),
            r.servers == servers,
            r.active_server_index == 0,
            !r.trending_cached(),
            r.search_query@ == Seq::<char>::empty(),
            r.search_batch@ == Seq::<MusicUnit>::empty(),
            r.search_page == 0,
    {
        Fetcher {
            trending_now: None,
            search_query: String::new(),
            search_batch: Vec::new(),
            search_page: 0,
            servers,
            active_server_index: 0,
        }
    }

    /// Advances the pool to the next mirror, cyclically; with a single
    /// server it rotates to itself and the index stays in bounds.
    pub fn change_server(&mut self)
        requires
            old(self).wf(),
        ensures
            final(self).wf(),
            *final(self) == rotated(*old(self)),
    {
        self.active_server_index = (self.active_server_index + 1) % self.servers.len();
    }

    /// The base URL of the mirror currently targeted.
    pub fn current_server(&self) -> (r: &String)
        requires
            self.wf(),
        ensures
            r@ == self.servers@[self.active_server_index as int]@,
    {
        &self.servers[self.active_server_index]
    }

    /// The full request URL: the active mirror's base URL followed by the
    /// endpoint path.
    pub fn request_url(&self, path: &str) -> (r: String)
        requires
            self.wf(),
        ensures
            r@ == self.servers@[self.active_server_index as int]@ + path@,
    {
        let mut url = self.servers[self.active_server_index].clone();
        url.append(path);
        url
    }

    /// Classifies one transport outcome under a retry budget: a parsed
    /// body is the result; a malformed body is terminal; a transport
    /// failure rotates the pool and signals `Retry` while budget remains,
    /// and is terminal once the budget is spent. Retrying itself is the
    /// caller's move.
    pub fn handle_response<T>(&mut self, outcome: HttpOutcome<T>, retry_for: i32) -> (r: Result<
        T,
        ReturnAction,
    >)
        requires
            old(self).wf(),
        ensures
            final(self).wf(),
            outcome matches HttpOutcome::Parsed(v) ==> r == Ok::<T, ReturnAction>(v) && *final(self)
                == *old(self),
            outcome matches HttpOutcome::Malformed ==> r == Err::<T, ReturnAction>(
                ReturnAction::Failed,
            ) && *final(self) == *old(self),
            outcome matches HttpOutcome::TransportError ==> r == Err::<T, ReturnAction>(
                failure_action(retry_for as int),
            ) && *final(self) == failure_state(*old(self), retry_for as int),
    {
        match outcome {
            HttpOutcome::Parsed(v) => Ok(v),
            HttpOutcome::Malformed => Err(ReturnAction::Failed),
            HttpOutcome::TransportError => {
                if retry_for > 0 {
                    self.change_server();
                    Err(ReturnAction::Retry)
                } else {
                    Err(ReturnAction::Failed)
                }
            },
        }
    }

    /// Whether a trending page lookup still needs a backend fetch.
    pub fn needs_trending_fetch(&self) -> (r: bool)
        ensures
            r == !self.trending_cached(),
    {
        self.trending_now.is_none()
    }

    /// Stores the trending list after its one successful fetch.
    pub fn store_trending(&mut self, items: Vec<MusicUnit>)
        ensures
            *final(self) == (Fetcher { trending_now: Some(items), ..*old(self) }),
    {
        self.trending_now = Some(items);
    }

    /// One caller page of the cached trending list: the fixed-size window
    /// at `page`, clipped to the list; `EOR` exactly when the page lies
    /// at or beyond the end of the list.
    pub fn get_trending_music(&self, page: usize) -> (r: Result<Vec<MusicUnit>, ReturnAction>)
        requires
            self.wf(),
            self.trending_cached(),
        ensures
            r == Err::<Vec<MusicUnit>, ReturnAction>(ReturnAction::EOR) <==> page_start(page as int)
                >= self.trending_items().len(),
            page_start(page as int) < self.trending_items().len() ==> (r matches Ok(v) && v@
                == page_slice(self.trending_items(), page as int)),
    {
        let t = self.trending_now.as_ref().unwrap();
        let len = t.len();
        proof {
            vstd::arithmetic::div_mod::lemma_fundamental_div_mod(len as int, 10);
        }
        if page > len / ITEM_PER_PAGE {
            return Err(ReturnAction::EOR);
        }
        let lower = ITEM_PER_PAGE * page;
        let upper = if len - lower < ITEM_PER_PAGE {
            len
        } else {
            lower + ITEM_PER_PAGE
        };
        if lower >= upper {
            return Err(ReturnAction::EOR);
        }
        Ok(copy_units(t, lower, upper))
    }

    /// Begins one search page request. A continuation of the cached query
    /// carries over the page's window of the cached batch, and answers
    /// directly when that window is already full; otherwise the backend
    /// page cursor advances and a fetch of the returned path is required.
    /// A new query resets the cache: nothing is carried over, and the
    /// cursor restarts at the first backend page.
    pub fn search_music(&mut self, query: &str, page: usize) -> (r: SearchStep)
        requires
            old(self).wf(),
            old(self).search_page < u64::MAX,
        ensures
            final(self).wf(),
            final(self).servers == old(self).servers,
            final(self).active_server_index == old(self).active_server_index,
            final(self).trending_now == old(self).trending_now,
            old(self).search_query@ == query@ ==> {
                let carried = page_slice(old(self).search_batch@, page as int);
                &&& carried.len() == ITEM_PER_PAGE ==> (r matches SearchStep::Ready(v) && v@
                    == carried && *final(self) == *old(self))
                &&& carried.len() < ITEM_PER_PAGE ==> (r matches SearchStep::Fetch(suffix, c) && c@
                    == carried && suffix@ == spec_search_suffix(
                    query@,
                    (old(self).search_page + 1) as nat,
                ) && *final(self) == (Fetcher {
                    search_page: (old(self).search_page + 1) as u64,
                    ..*old(self)
                }))
            },
            old(self).search_query@ != query@ ==> (r matches SearchStep::Fetch(suffix, c) && c@
                == Seq::<MusicUnit>::empty() && suffix@ == spec_search_suffix(query@, 1)
                && final(self).search_query@ == query@ && final(self).search_batch@ == Seq::<
                MusicUnit,
            >::empty() && final(self).search_page == 1),
    {
        let same = str_eq(query, self.search_query.as_str());
        if same {
            let len = self.search_batch.len();
            let mut carried: Vec<MusicUnit> = Vec::new();
            proof {
                vstd::arithmetic::div_mod::lemma_fundamental_div_mod(len as int, 10);
            }
            if page <= len / ITEM_PER_PAGE {
                let lower = ITEM_PER_PAGE * page;
                let upper = if len - lower < ITEM_PER_PAGE {
                    len
                } else {
                    lower + ITEM_PER_PAGE
                };
                if upper > lower {
                    carried = copy_units(&self.search_batch, lower, upper);
                }
            }
            proof {
                assert(carried@ == page_slice(self.search_batch@, page as int));
            }
            if carried.len() == ITEM_PER_PAGE {
                return SearchStep::Ready(carried);
            }
            let next_page = self.search_page + 1;
            self.search_page = next_page;
            let suffix = search_suffix(query, next_page);
            SearchStep::Fetch(suffix, carried)
        } else {
            self.search_query = String::from_str(query);
            self.search_batch = Vec::new();
            self.search_page = 1;
            let suffix = search_suffix(query, 1);
            SearchStep::Fetch(suffix, Vec::new())
        }
    }

    /// Completes a search page after a successful backend fetch: the new
    /// batch replaces the cached one, the carried items are topped up
    /// from its front to at most a full page, and an empty outcome is the
    /// end of the results.
    pub fn finish_search(&mut self, carried: Vec<MusicUnit>, batch: Vec<MusicUnit>) -> (r: Result<
        Vec<MusicUnit>,
        ReturnAction,
    >)
        requires
            old(self).wf(),
            carried@.len() < ITEM_PER_PAGE,
        ensures
            final(self).wf(),
            *final(self) == (Fetcher { search_batch: batch, ..*old(self) }),
            r == Err::<Vec<MusicUnit>, ReturnAction>(ReturnAction::EOR) <==> carried@.len()
                + batch@.len() == 0,
            carried@.len() + batch@.len() > 0 ==> (r matches Ok(v) && v@ == carried@ + batch@.take(
                fetch_take(batch@.len() as int, carried@.len() as int),
            )),
    {
        let mut out = carried;
        let take = if batch.len() < ITEM_PER_PAGE - out.len() {
            batch.len()
        } else {
            ITEM_PER_PAGE - out.len()
        };
        let mut extra = copy_units(&batch, 0, take);
        out.append(&mut extra);
        self.search_batch = batch;
        if out.len() == 0 {
            Err(ReturnAction::EOR)
        } else {
            Ok(out)
        }
    }
}

/// The search endpoint path for a query and a backend page, as one string.
pub fn search_suffix(query: &str, backend_page: u64) -> (r: String)
    ensures
        r@ == spec_search_suffix(query@, backend_page as nat),
{
    let mut out = String::from_str("/search?q=");
    out.append(query);
    out.append("&type=video&region=NP&page=");
    let p = u64_to_dec(backend_page);
    out.append(p.as_str());
    out.append("&fields=videoId,title,author,lengthSeconds");
    proof {
        assert(out@ =~= spec_search_suffix(query@, backend_page as nat));
    }
    out
}

/// The trending endpoint path, as one string.
pub fn trending_suffix() -> (r: String)
    ensures
        r@ == spec_trending_suffix(),
{
    String::from_str("/trending?type=Music&region=NP&fields=videoId,title,author,lengthSeconds")
}

/// A page that starts at or beyond the end of a batch shows nothing:
/// together with the `EOR` clause of `get_trending_music`, every page
/// index `p` with `p * ITEM_PER_PAGE >= len` answers end-of-results.
pub proof fn lemma_page_beyond_end_is_empty(s: Seq<MusicUnit>, page: int)
    requires
        page_start(page) >= s.len(),
    ensures
        page_slice(s, page).len() == 0,
{
}

/// Trending is fetched at most once per process lifetime: once the list
/// is cached it stays cached under rotation and failure handling, and
/// `get_trending_music` borrows the state immutably, so no sequence of
/// page lookups after the first successful fetch can need a second one.
pub proof fn lemma_trending_stays_cached(f: Fetcher, budget: int)
    requires
        f.trending_cached(),
    ensures
        rotated(f).trending_cached(),
        failure_state(f, budget).trending_cached(),
        rotated(f).trending_items() == f.trending_items(),
{
}

/// The concatenation of caller pages `0..=k` of one batch.
pub open spec fn pages_concat(b: Seq<MusicUnit>, k: nat) -> Seq<MusicUnit>
    decreases k,
{
    if k == 0 {
        page_slice(b, 0)
    } else {
        pages_concat(b, (k - 1) as nat) + page_slice(b, k as int)
    }
}

/// For a fixed query served out of one backend batch, the concatenation
/// of the caller pages `0, 1, …, k` is exactly the batch's first
/// `min(len, (k + 1) * ITEM_PER_PAGE)` items: the pages repeat no item,
/// drop none, and keep the backend-returned order.
pub proof fn lemma_pages_concat_is_prefix(b: Seq<MusicUnit>, k: nat)
    ensures
        pages_concat(b, k) == b.take(page_end(b.len() as int, k as int)),
    decreases k,
{
    let len = b.len() as int;
    if k == 0 {
        assert(pages_concat(b, 0) =~= b.take(page_end(len, 0)));
    } else {
        lemma_pages_concat_is_prefix(b, (k - 1) as nat);
        if page_start(k as int) >= len {
            assert(page_end(len, (k - 1) as int) == len);
            assert(pages_concat(b, k) =~= b.take(page_end(len, k as int)));
        } else {
            assert(page_end(len, (k - 1) as int) == page_start(k as int));
            assert(pages_concat(b, k) =~= b.take(page_end(len, k as int)));
        }
    }
}

/// Distinct caller pages of one batch occupy disjoint index ranges, in
/// increasing order: the window of the earlier page ends at or before the
/// later page's window begins. Concatenating the pages of a fixed query
/// in order therefore repeats no item of the batch and keeps the
/// backend-returned order.
pub proof fn lemma_search_pages_ordered(len: int, p1: int, p2: int)
    requires
        0 <= p1 < p2,
    ensures
        page_end(len, p1) <= page_start(p2),
{
}

/// The items a fetch tops a page up with form a prefix of the new batch
/// of at most one full page, and every later page of that same batch
/// starts at or after that prefix: a fetch never re-serves what a later
/// page of the batch will show.
pub proof fn lemma_fetch_prefix_precedes_later_pages(batch_len: int, carried_len: int, p: int)
    requires
        0 <= carried_len < ITEM_PER_PAGE,
        0 <= batch_len,
        1 <= p,
    ensures
        fetch_take(batch_len, carried_len) <= ITEM_PER_PAGE,
        fetch_take(batch_len, carried_len) <= page_start(p),
{
}

/// A new query starts from a clean page: `search_music` carries nothing
/// over from the superseded query, so the completed first page is exactly
/// a prefix of the freshly fetched batch.
pub proof fn lemma_new_query_page_fresh(batch: Seq<MusicUnit>, k: int)
    requires
        0 <= k <= batch.len(),
    ensures
        Seq::<MusicUnit>::empty() + batch.take(k) == batch.take(k),
{
    assert(Seq::<MusicUnit>::empty() + batch.take(k) =~= batch.take(k));
}

/// Rotating a one-server pool is a no-op: the active index stays 0 and in
/// bounds.
pub proof fn lemma_single_server_rotation(f: Fetcher)
    requires
        f.wf(),
        f.servers.len() == 1,
    ensures
        rotated(f) == f,
{
    assert(rotated(f).active_server_index == 0);
}

/// A transport failure under retry budget 2 rotates the pool and signals
/// `Retry`; the re-invocation under budget 1 does the same; a third
/// failure, with the budget spent, is terminal and rotates no further:
/// exactly two rotations before `Failed`. A parsed body at any attempt is
/// returned as the result instead (the `Parsed` clause of
/// `handle_response`).
pub proof fn lemma_retry_budget(f: Fetcher)
    requires
        f.wf(),
    ensures
        failure_action(2) == ReturnAction::Retry,
        failure_action(1) == ReturnAction::Retry,
        failure_action(0) == ReturnAction::Failed,
        failure_state(failure_state(f, 2), 1) == rotated(rotated(f)),
        failure_state(failure_state(failure_state(f, 2), 1), 0) == rotated(rotated(f)),
        rotated(rotated(f)).wf(),
{
}

} // verus!
