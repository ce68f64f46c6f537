//! Enumeration of the paginated remote inventory: pages are requested in
//! order starting at 1, an empty page terminates, retryable failures are
//! retried with bounded exponential backoff, and everything else aborts the
//! run with a `FetchError`.

use vstd::prelude::*;
use crate::errors::FetchError;
use crate::inventory::{Inventory, RepoEntry, extend_map, spec_insert_all};

verus! {

/// What one page request came to, after decoding.
#[derive(Debug)]
pub enum PageOutcome {
    /// A non-empty result array: the entries accepted from it (objects
    /// missing a name or clone URL were skipped and are not here).
    Page(Vec<RepoEntry>),
    /// The empty result array that terminates enumeration.
    Last,
    /// A transport or decoding failure that a retry may mend (a timeout, a
    /// server-side error, an unreadable body).
    Retryable,
    /// A failure that no retry will mend, such as an authentication
    /// rejection.
    Fatal,
}

/// What the enumeration engine asks its caller to do next.
#[derive(Clone, Copy, Debug, PartialEq, Eq, Structural)]
pub enum NextStep {
    /// Request the given page, after waiting out the given backoff.
    Request { page: u64, backoff_millis: u64 },
    /// Enumeration is complete: the inventory is whole.
    Done,
    /// Enumeration failed for the whole run.
    Abort(FetchError),
}

/// Bounded exponential backoff before a retry: it starts at 100 ms, doubles
/// with each further attempt on the same page, and is capped.
pub open spec fn spec_backoff_millis(attempt: nat) -> nat
    decreases attempt,
{
    if attempt == 0 {
        100
    } else if attempt >= 7 {
        12800
    } else {
        2 * spec_backoff_millis((attempt - 1) as nat)
    }
}

/// The backoff never exceeds its cap.
pub proof fn lemma_backoff_bounded(attempt: nat)
    ensures
        spec_backoff_millis(attempt) <= 12800,
{
    assert(spec_backoff_millis(0) == 100);
    assert(spec_backoff_millis(1) == 200);
    assert(spec_backoff_millis(2) == 400);
    assert(spec_backoff_millis(3) == 800);
    assert(spec_backoff_millis(4) == 1600);
    assert(spec_backoff_millis(5) == 3200);
    assert(spec_backoff_millis(6) == 6400);
    if attempt < 7 {
        assert(attempt == 0 || attempt == 1 || attempt == 2 || attempt == 3 || attempt == 4
            || attempt == 5 || attempt == 6);
    }
}

/// Computes the backoff before retrying a page for the given time.
pub fn backoff_millis(attempt: u8) -> (b: u64)
    ensures
        b == spec_backoff_millis(attempt as nat),
        b <= 12800,
    decreases attempt,
{
    proof {
        lemma_backoff_bounded(attempt as nat);
    }
    if attempt == 0 {
        100
    } else if attempt >= 7 {
        12800
    } else {
        proof {
            lemma_backoff_bounded((attempt - 1) as nat);
        }
        2 * backoff_millis(attempt - 1)
    }
}

/// How a non-empty page changes the engine: its entries are folded into
/// the inventory, in order (so iteration order stays deterministic), the
/// page index advances, the retry budget is replenished, and the next
/// page is requested without backoff.
pub open spec fn page_transition(
    pre: Enumeration,
    post: Enumeration,
    entries: Seq<RepoEntry>,
    ns: NextStep,
) -> bool {
    &&& post@ == extend_map(pre@, entries)
    &&& post.spec_inventory().spec_entries() == spec_insert_all(
        pre.spec_inventory().spec_entries(),
        entries,
    )
    &&& post.spec_page() == pre.spec_page() + 1
    &&& post.spec_retries_left() == pre.spec_max_retries()
    &&& post.spec_max_retries() == pre.spec_max_retries()
    &&& ns == (NextStep::Request { page: (pre.spec_page() + 1) as u64, backoff_millis: 0u64 })
}

/// How a retryable failure changes the engine: with budget left, one retry
/// is spent and the same page is asked again after the doubled backoff;
/// with none left, enumeration aborts, so a persistent failure never loops
/// indefinitely.
pub open spec fn retry_transition(pre: Enumeration, post: Enumeration, ns: NextStep) -> bool {
    &&& post@ == pre@
    &&& post.spec_page() == pre.spec_page()
    &&& post.spec_max_retries() == pre.spec_max_retries()
    &&& pre.spec_retries_left() > 0 ==> (post.spec_retries_left() == pre.spec_retries_left() - 1
        && ns == (NextStep::Request {
        page: pre.spec_page(),
        backoff_millis: spec_backoff_millis(
            (pre.spec_max_retries() - pre.spec_retries_left()) as nat,
        ) as u64,
    }))
    &&& pre.spec_retries_left() == 0 ==> (post == pre && ns == NextStep::Abort(
        FetchError::RetryBudgetExhausted { page: pre.spec_page() },
    ))
}

/// The enumeration engine: tracks the inventory built so far, the page
/// currently requested, and the retry budget left for it. The caller
/// performs each request and hands the outcome back through `step`.
pub struct Enumeration {
    inventory: Inventory,
    page: u64,
    retries_left: u8,
    max_retries: u8,
}

impl View for Enumeration {
    type V = Map<Seq<char>, Seq<char>>;

    open spec fn view(&self) -> Map<Seq<char>, Seq<char>> {
        self.spec_inventory()@
    }
}

impl Enumeration {
    /// The inventory built so far.
    pub closed spec fn spec_inventory(&self) -> Inventory {
        self.inventory
    }

    /// The page currently being requested (pages start at 1).
    pub closed spec fn spec_page(&self) -> u64 {
        self.page
    }

    /// How many retries are left for the current page.
    pub closed spec fn spec_retries_left(&self) -> u8 {
        self.retries_left
    }

    /// The retry budget granted to each page.
    pub closed spec fn spec_max_retries(&self) -> u8 {
        self.max_retries
    }

    /// Well-formedness: the inventory has unique names, pages start at 1,
    /// and the retries left never exceed the budget.
    pub open spec fn wf(&self) -> bool {
        &&& self.spec_inventory().wf()
        &&& 1 <= self.spec_page()
        &&& self.spec_retries_left() <= self.spec_max_retries()
    }

    /// Starts an enumeration at page 1 with an empty inventory and the
    /// given per-page retry budget.
    pub fn new(max_retries: u8) -> (en: Enumeration)
        ensures
            en.wf(),
            en@ == Map::<Seq<char>, Seq<char>>::empty(),
            en.spec_inventory().spec_entries() == Seq::<RepoEntry>::empty(),
            en.spec_page() == 1,
            en.spec_retries_left() == max_retries,
            en.spec_max_retries() == max_retries,
    {
        let inventory = Inventory::new();
        proof {
            assert(inventory.spec_entries() =~= Seq::<RepoEntry>::empty());
        }
        Enumeration { inventory, page: 1, retries_left: max_retries, max_retries }
    }

    /// The page to request next.
    pub fn current_page(&self) -> (p: u64)
        ensures
            p == self.spec_page(),
    {
        self.page
    }

    /// Hands the finished inventory over.
    pub fn into_inventory(self) -> (inv: Inventory)
        requires
            self.wf(),
        ensures
            inv.wf(),
            inv@ == self@,
            inv.spec_entries() == self.spec_inventory().spec_entries(),
    {
        self.inventory
    }

    /// A non-empty page arrived: its entries are folded into the inventory
    /// (later pages overwrite earlier entries of the same name), the page
    /// index advances, and the retry budget is replenished.
    pub fn on_page(&mut self, entries: &Vec<RepoEntry>) -> (ns: NextStep)
        requires
            old(self).wf(),
            old(self).spec_page() < u64::MAX,
        ensures
            final(self).wf(),
            page_transition(*old(self), *final(self), entries@, ns),
    {
        self.inventory.insert_page(entries);
        self.page = self.page + 1;
        self.retries_left = self.max_retries;
        NextStep::Request { page: self.page, backoff_millis: 0 }
    }

    /// The empty page arrived: enumeration is complete and the state is
    /// left as it is.
    pub fn on_last(&mut self) -> (ns: NextStep)
        ensures
            *final(self) == *old(self),
            ns == NextStep::Done,
    {
        NextStep::Done
    }

    /// A retryable failure arrived: while budget is left, the same page is
    /// asked again after a backoff that doubles per attempt; once the
    /// budget is exhausted, enumeration aborts with a `FetchError`, so a
    /// persistent failure never loops indefinitely.
    pub fn on_retryable(&mut self) -> (ns: NextStep)
        requires
            old(self).wf(),
        ensures
            final(self).wf(),
            retry_transition(*old(self), *final(self), ns),
    {
        if self.retries_left > 0 {
            let attempt = self.max_retries - self.retries_left;
            let b = backoff_millis(attempt);
            self.retries_left = self.retries_left - 1;
            NextStep::Request { page: self.page, backoff_millis: b }
        } else {
            NextStep::Abort(FetchError::RetryBudgetExhausted { page: self.page })
        }
    }

    /// A non-retryable failure arrived: enumeration aborts at once.
    pub fn on_fatal(&mut self) -> (ns: NextStep)
        ensures
            *final(self) == *old(self),
            ns == NextStep::Abort(FetchError::NonRetryable { page: old(self).spec_page() }),
    {
        NextStep::Abort(FetchError::NonRetryable { page: self.page })
    }

    /// Feeds one page outcome to the engine and returns what to do next.
    pub fn step(&mut self, outcome: &PageOutcome) -> (ns: NextStep)
        requires
            old(self).wf(),
            old(self).spec_page() < u64::MAX,
        ensures
            final(self).wf(),
            outcome matches PageOutcome::Page(entries) ==> page_transition(
                *old(self),
                *final(self),
                entries@,
                ns,
            ),
            outcome is Last ==> (*final(self) == *old(self) && ns == NextStep::Done),
            outcome is Retryable ==> retry_transition(*old(self), *final(self), ns),
            outcome is Fatal ==> (*final(self) == *old(self) && ns == NextStep::Abort(
                FetchError::NonRetryable { page: old(self).spec_page() },
            )),
    {
        match outcome {
            PageOutcome::Page(entries) => self.on_page(entries),
            PageOutcome::Last => self.on_last(),
            PageOutcome::Retryable => self.on_retryable(),
            PageOutcome::Fatal => self.on_fatal(),
        }
    }
}

/// How an HTTP response status bears on enumeration.
#[derive(Clone, Copy, Debug, PartialEq, Eq, Structural)]
pub enum StatusClass {
    /// A success status: the body is a page to decode.
    Usable,
    /// A failure worth a bounded retry (server-side errors and the like).
    Retry,
    /// A failure no retry will mend (client-side errors, e.g. a rejected
    /// token).
    Abandon,
}

/// Classifies an HTTP response status for enumeration: success statuses
/// carry a usable page, client errors abort the run, and everything else
/// gets a bounded retry.
pub fn classify_status(status: u16) -> (c: StatusClass)
    ensures
        (c is Usable <==> 200 <= status < 300),
        (c is Abandon <==> 400 <= status < 500),
        (c is Retry <==> !(200 <= status < 300) && !(400 <= status < 500)),
{
    if 200 <= status && status < 300 {
        StatusClass::Usable
    } else if 400 <= status && status < 500 {
        StatusClass::Abandon
    } else {
        StatusClass::Retry
    }
}

/// The page sequences that a sequence of page vectors denotes.
pub open spec fn page_views(pages: Seq<Vec<RepoEntry>>) -> Seq<Seq<RepoEntry>> {
    pages.map_values(|p: Vec<RepoEntry>| p@)
}

/// The index of the first empty page, or the number of pages if none is
/// empty.
pub open spec fn spec_first_empty(pages: Seq<Seq<RepoEntry>>) -> nat
    decreases pages.len(),
{
    if pages.len() == 0 {
        0
    } else if pages[0].len() == 0 {
        0
    } else {
        1 + spec_first_empty(pages.drop_first())
    }
}

/// The entry list after folding the first `k` pages, in order, into an
/// empty inventory.
pub open spec fn spec_entries_upto(pages: Seq<Seq<RepoEntry>>, k: int) -> Seq<RepoEntry>
    decreases k,
{
    if k <= 0 {
        Seq::empty()
    } else {
        spec_insert_all(spec_entries_upto(pages, k - 1), pages[k - 1])
    }
}

/// The inventory after folding the first `k` pages, in order, into an
/// empty map.
pub open spec fn spec_inventory_upto(pages: Seq<Seq<RepoEntry>>, k: int) -> Map<
    Seq<char>,
    Seq<char>,
>
    decreases k,
{
    if k <= 0 {
        Map::empty()
    } else {
        extend_map(spec_inventory_upto(pages, k - 1), pages[k - 1])
    }
}

/// The union, in order, of all page arrays up to (exclusive of) the first
/// empty page; a later entry for a name overwrites an earlier one.
pub open spec fn inventory_of_pages(pages: Seq<Seq<RepoEntry>>) -> Map<Seq<char>, Seq<char>> {
    spec_inventory_upto(pages, spec_first_empty(pages) as int)
}

/// How many page requests a failure-free enumeration over these pages
/// issues: one per page up to and including the first empty page, or one
/// per page if none is empty.
pub open spec fn spec_requests(pages: Seq<Seq<RepoEntry>>) -> nat {
    if spec_first_empty(pages) < pages.len() {
        spec_first_empty(pages) + 1
    } else {
        pages.len()
    }
}

/// The first empty page never lies past the end.
pub proof fn lemma_first_empty_le(pages: Seq<Seq<RepoEntry>>)
    ensures
        spec_first_empty(pages) <= pages.len(),
    decreases pages.len(),
{
    if pages.len() == 0 {
    } else if pages[0].len() == 0 {
    } else {
        lemma_first_empty_le(pages.drop_first());
    }
}

/// An index below which every page is non-empty and at which (if within
/// range) the page is empty is the first empty page's index.
proof fn lemma_first_empty_is_char(pages: Seq<Seq<RepoEntry>>, k: int)
    requires
        0 <= k <= pages.len(),
        forall|j: int| 0 <= j < k ==> pages[j].len() > 0,
        k < pages.len() ==> pages[k].len() == 0,
    ensures
        k == spec_first_empty(pages),
    decreases pages.len(),
{
    if pages.len() == 0 {
    } else if pages[0].len() == 0 {
        if k > 0 {
            assert(pages[0].len() > 0);
        }
    } else {
        assert(k > 0) by {
            if k == 0 {
                assert(pages[0].len() == 0);
            }
        }
        let t = pages.drop_first();
        assert forall|j: int| 0 <= j < k - 1 implies t[j].len() > 0 by {
            assert(t[j] == pages[j + 1]);
        }
        assert(k - 1 < t.len() ==> t[k - 1].len() == 0);
        lemma_first_empty_is_char(t, k - 1);
    }
}

/// Finds the first empty page, scanning in order.
#[verifier::loop_isolation(false)]
fn first_empty_index(pages: &Vec<Vec<RepoEntry>>) -> (fe: usize)
    ensures
        fe == spec_first_empty(page_views(pages@)),
        fe <= pages@.len(),
{
    let n = pages.len();
    let mut i: usize = 0;
    while i < n
        invariant
            i <= n,
            forall|j: int| 0 <= j < i ==> page_views(pages@)[j].len() > 0,
        decreases n - i,
    {
        if pages[i].len() == 0 {
            proof {
                lemma_first_empty_is_char(page_views(pages@), i as int);
            }
            return i;
        }
        i += 1;
    }
    proof {
        lemma_first_empty_is_char(page_views(pages@), n as int);
    }
    n
}

/// Runs a failure-free enumeration over the given page results, in order:
/// the inventory comes out as the union of all page arrays up to the first
/// empty page, with no duplicate names, and the second component counts
/// the page requests issued.
#[verifier::loop_isolation(false)]
pub fn inventory_from_pages(pages: &Vec<Vec<RepoEntry>>, max_retries: u8) -> (r: (
    Inventory,
    u64,
))
    requires
        pages@.len() < u64::MAX,
    ensures
        r.0.wf(),
        r.0@ == inventory_of_pages(page_views(pages@)),
        r.0.spec_entries() == spec_entries_upto(
            page_views(pages@),
            spec_first_empty(page_views(pages@)) as int,
        ),
        r.1 == spec_requests(page_views(pages@)),
{
    let ghost views = page_views(pages@);
    let fe = first_empty_index(pages);
    let mut en = Enumeration::new(max_retries);
    let mut i: usize = 0;
    while i < fe
        invariant
            i <= fe,
            en.wf(),
            en.spec_page() == i + 1,
            en@ == spec_inventory_upto(views, i as int),
            en.spec_inventory().spec_entries() == spec_entries_upto(views, i as int),
        decreases fe - i,
    {
        let ns = en.on_page(&pages[i]);
        proof {
            assert(views[i as int] == pages@[i as int]@);
        }
        i += 1;
    }
    if fe < pages.len() {
        let ns = en.step(&PageOutcome::Last);
        let requests = (fe as u64) + 1;
        (en.into_inventory(), requests)
    } else {
        (en.into_inventory(), fe as u64)
    }
}

/// A name is in the extension of `m` by `es` exactly when it is in `m` or
/// some entry of `es` carries it.
pub proof fn lemma_extend_map_dom(m: Map<Seq<char>, Seq<char>>, es: Seq<RepoEntry>, n: Seq<char>)
    ensures
        extend_map(m, es).dom().contains(n) <==> (m.dom().contains(n) || exists|i: int|
            0 <= i < es.len() && es[i].name@ == n),
    decreases es.len(),
{
    if es.len() == 0 {
    } else {
        let m1 = m.insert(es.first().name@, es.first().ssh_url@);
        lemma_extend_map_dom(m1, es.drop_first(), n);
        if exists|i: int| 0 <= i < es.len() && es[i].name@ == n {
            let i = choose|i: int| 0 <= i < es.len() && es[i].name@ == n;
            if i == 0 {
                assert(m1.dom().contains(n));
            } else {
                assert(es.drop_first()[i - 1].name@ == n);
            }
        }
        if extend_map(m, es).dom().contains(n) && !m.dom().contains(n) {
            if m1.dom().contains(n) {
                assert(es[0].name@ == n);
            } else {
                let j = choose|j: int|
                    0 <= j < es.drop_first().len() && es.drop_first()[j].name@ == n;
                assert(es[j + 1].name@ == n);
            }
        }
    }
}

/// A name is in the inventory of the first `k` pages exactly when one of
/// those pages lists it.
proof fn lemma_upto_dom(pages: Seq<Seq<RepoEntry>>, k: int, n: Seq<char>)
    requires
        0 <= k <= pages.len(),
    ensures
        spec_inventory_upto(pages, k).dom().contains(n) <==> exists|p: int, i: int|
            0 <= p < k && 0 <= i < pages[p].len() && pages[p][i].name@ == n,
    decreases k,
{
    if k == 0 {
    } else {
        lemma_upto_dom(pages, k - 1, n);
        lemma_extend_map_dom(spec_inventory_upto(pages, k - 1), pages[k - 1], n);
        if exists|p: int, i: int| 0 <= p < k && 0 <= i < pages[p].len() && pages[p][i].name@
            == n {
            let (p, i) = choose|p: int, i: int|
                0 <= p < k && 0 <= i < pages[p].len() && pages[p][i].name@ == n;
            if p < k - 1 {
                assert(spec_inventory_upto(pages, k - 1).dom().contains(n));
            } else {
                assert(pages[k - 1][i].name@ == n);
            }
        }
        if spec_inventory_upto(pages, k).dom().contains(n) {
            if spec_inventory_upto(pages, k - 1).dom().contains(n) {
                let (p, i) = choose|p: int, i: int|
                    0 <= p < k - 1 && 0 <= i < pages[p].len() && pages[p][i].name@ == n;
                assert(0 <= p < k && 0 <= i < pages[p].len() && pages[p][i].name@ == n);
            } else {
                let i = choose|i: int|
                    0 <= i < pages[k - 1].len() && #[trigger] pages[k - 1][i].name@ == n;
                assert(0 <= k - 1 < k && 0 <= i < pages[k - 1].len() && pages[k - 1][i].name@
                    == n);
            }
        }
    }
}

/// The inventory holds a name exactly when some page before the first
/// empty page lists a repository of that name: the inventory is the union
/// of the page arrays up to (exclusive of) the first empty page.
pub proof fn lemma_inventory_membership(pages: Seq<Seq<RepoEntry>>, n: Seq<char>)
    ensures
        inventory_of_pages(pages).dom().contains(n) <==> exists|p: int, i: int|
            0 <= p < spec_first_empty(pages) && 0 <= i < pages[p].len() && pages[p][i].name@
                == n,
{
    lemma_first_empty_le(pages);
    lemma_upto_dom(pages, spec_first_empty(pages) as int, n);
}

} // verus!
