//! Budget-bounded, paginated fetching of log events. The remote call that
//! produces each page happens outside; here each page is accounted against
//! the two client-side budgets — event count and cumulative byte size — and
//! the loop stops at the first budget breached, never overshooting beyond the
//! page that caused the breach.

use vstd::prelude::*;
use vstd::utf8::encode_utf8;

verus! {

/// One log event as returned by the remote API. Ordering is whatever the
/// remote side returns; no global sort across pages is assumed.
#[derive(Debug)]
pub struct LogEvent {
    pub timestamp: i64,
    pub message: String,
    pub log_stream_name: Option<String>,
    pub event_id: Option<String>,
}

impl LogEvent {
    /// Assembles an event from the optional raw fields of a remote record,
    /// defaulting a missing timestamp to zero and a missing message to empty.
    pub fn from_parts(
        timestamp: Option<i64>,
        message: Option<String>,
        log_stream_name: Option<String>,
        event_id: Option<String>,
    ) -> (e: LogEvent)
        ensures
            e.timestamp == (match timestamp {
                Some(t) => t,
                None => 0,
            }),
            e.message@ == (match message {
                Some(m) => m@,
                None => Seq::<char>::empty(),
            }),
            e.log_stream_name == log_stream_name,
            e.event_id == event_id,
    {
        LogEvent {
            timestamp: match timestamp {
                Some(t) => t,
                None => 0,
            },
            message: match message {
                Some(m) => m,
                None => String::new(),
            },
            log_stream_name,
            event_id,
        }
    }
}

/// The byte length of an event's message, as the size accounting counts it.
pub open spec fn event_size(e: LogEvent) -> usize {
    encode_utf8(e.message@).len() as usize
}

/// Total message byte size of a sequence of events.
pub open spec fn events_size(es: Seq<LogEvent>) -> int
    decreases es.len(),
{
    if es.len() == 0 {
        0
    } else {
        event_size(es[0]) + events_size(es.drop_first())
    }
}

pub proof fn lemma_events_size_nonneg(es: Seq<LogEvent>)
    ensures
        events_size(es) >= 0,
    decreases es.len(),
{
    if es.len() > 0 {
        lemma_events_size_nonneg(es.drop_first());
    }
}

pub proof fn lemma_events_size_cat(a: Seq<LogEvent>, b: Seq<LogEvent>)
    ensures
        events_size(a + b) == events_size(a) + events_size(b),
    decreases a.len(),
{
    if a.len() == 0 {
        assert(a + b =~= b);
    } else {
        assert((a + b).drop_first() =~= a.drop_first() + b);
        assert((a + b)[0] == a[0]);
        lemma_events_size_cat(a.drop_first(), b);
    }
}

pub proof fn lemma_events_size_push(es: Seq<LogEvent>, e: LogEvent)
    ensures
        events_size(es.push(e)) == events_size(es) + event_size(e),
    decreases es.len(),
{
    assert(es.push(e).len() == es.len() + 1);
    if es.len() == 0 {
        assert(es.push(e)[0] == e);
        assert(es.push(e).drop_first() =~= Seq::<LogEvent>::empty());
        assert(events_size(Seq::<LogEvent>::empty()) == 0);
        assert(events_size(es) == 0);
        assert(events_size(es.push(e)) == event_size(e) + events_size(es.push(e).drop_first()));
    } else {
        assert(es.push(e)[0] == es[0]);
        assert(es.push(e).drop_first() =~= es.drop_first().push(e));
        lemma_events_size_push(es.drop_first(), e);
        assert(events_size(es.push(e)) == event_size(es[0]) + events_size(
            es.drop_first().push(e),
        ));
        assert(events_size(es) == event_size(es[0]) + events_size(es.drop_first()));
    }
}

/// The accumulated size of a prefix never exceeds that of the whole.
pub proof fn lemma_events_size_prefix(es: Seq<LogEvent>, i: int)
    requires
        0 <= i <= es.len(),
    ensures
        events_size(es.subrange(0, i)) <= events_size(es),
        events_size(es.subrange(0, i)) >= 0,
{
    assert(es =~= es.subrange(0, i) + es.skip(i));
    lemma_events_size_cat(es.subrange(0, i), es.skip(i));
    lemma_events_size_nonneg(es.skip(i));
    lemma_events_size_nonneg(es.subrange(0, i));
}

/// The total message byte size of a page of events.
pub fn page_size(events: &Vec<LogEvent>) -> (r: usize)
    requires
        events_size(events@) <= usize::MAX,
    ensures
        r == events_size(events@),
{
    let mut total: usize = 0;
    let n = events.len();
    for i in 0..n
        invariant
            n == events@.len(),
            events_size(events@) <= usize::MAX,
            total == events_size(events@.subrange(0, i as int)),
    {
        proof {
            assert(events@.subrange(0, i + 1) =~= events@.subrange(0, i as int).push(
                events@[i as int],
            ));
            lemma_events_size_push(events@.subrange(0, i as int), events@[i as int]);
            lemma_events_size_prefix(events@, i + 1);
        }
        total = total + events[i].message.as_str().len();
    }
    proof {
        assert(events@.subrange(0, n as int) =~= events@);
    }
    total
}

/// The client-side ceilings a bulk fetch runs under.
#[derive(Clone, Copy, PartialEq, Eq, Structural, Debug)]
pub struct FetchBudget {
    pub max_events: usize,
    pub max_bytes: usize,
}

/// The number of events a bulk fetch accumulates at most when no ceiling is
/// given.
pub const DEFAULT_MAX_EVENTS: usize = 50000;

/// The cumulative message byte size a bulk fetch accumulates at most when no
/// ceiling is given: 100 binary megabytes.
pub const DEFAULT_MAX_BYTES: usize = 104857600;

impl FetchBudget {
    /// A budget from the caller's optional ceilings: an event count and a
    /// size in binary megabytes, each default-populated when unset.
    pub fn from_options(max_count: Option<u32>, max_size_mb: Option<u32>) -> (b: FetchBudget)
        requires
            max_size_mb is Some ==> max_size_mb->0 * 1048576 <= usize::MAX,
        ensures
            b.max_events == (match max_count {
                Some(c) => c as int,
                None => DEFAULT_MAX_EVENTS as int,
            }),
            b.max_bytes == (match max_size_mb {
                Some(mb) => mb * 1048576,
                None => DEFAULT_MAX_BYTES as int,
            }),
    {
        let max_events: usize = match max_count {
            Some(c) => c as usize,
            None => DEFAULT_MAX_EVENTS,
        };
        let max_bytes: usize = match max_size_mb {
            Some(mb) => (mb as usize) * 1048576,
            None => DEFAULT_MAX_BYTES,
        };
        FetchBudget { max_events, max_bytes }
    }
}

/// One page of a paginated fetch: its events and the continuation cursor;
/// a missing cursor signals the terminal page.
pub struct LogPage {
    pub events: Vec<LogEvent>,
    pub next_token: Option<String>,
}

/// Which budget stopped a bulk fetch early.
#[derive(Clone, Copy, PartialEq, Eq, Structural, Debug)]
pub enum TruncationReason {
    Count,
    Size,
}

/// The progress notification emitted after every page.
#[derive(Clone, Copy, PartialEq, Eq, Structural, Debug)]
pub struct FetchProgress {
    pub count: usize,
    pub size_bytes: usize,
}

/// The truncation notification emitted when a budget stops the fetch while a
/// continuation cursor still exists.
#[derive(Clone, Copy, PartialEq, Eq, Structural, Debug)]
pub struct FetchTruncation {
    pub count: usize,
    pub size_bytes: usize,
    pub reason: TruncationReason,
}

/// The running accumulation of a bulk fetch.
pub struct FetchState {
    pub events: Vec<LogEvent>,
    pub total_bytes: usize,
}

impl FetchState {
    pub fn new() -> (s: FetchState)
        ensures
            s.events@ == Seq::<LogEvent>::empty(),
            s.total_bytes == 0,
    {
        FetchState { events: Vec::new(), total_bytes: 0 }
    }
}

/// What one page step reports: the progress notification (always emitted),
/// the truncation notification (emitted only when a budget was breached with
/// a cursor remaining), and whether the fetch is finished.
pub struct FetchStepResult {
    pub progress: FetchProgress,
    pub truncation: Option<FetchTruncation>,
    pub done: bool,
}

/// Folds one page into the accumulation and decides whether to continue.
/// The stop conditions are checked in a fixed order after the whole page has
/// been appended and measured: the count ceiling first (the collection is
/// trimmed back to exactly `max_events`, after the byte total already counted
/// the trimmed events), then the byte ceiling (advisory: the appended page is
/// kept whole), then the natural end of data.
pub fn fetch_step(st: &mut FetchState, page: LogPage, budget: &FetchBudget) -> (r: FetchStepResult)
    requires
        old(st).total_bytes + events_size(page.events@) <= usize::MAX,
    ensures
        final(st).total_bytes == old(st).total_bytes + events_size(page.events@),
        r.progress.count == old(st).events@.len() + page.events@.len(),
        r.progress.size_bytes == final(st).total_bytes,
        old(st).events@.len() + page.events@.len() >= budget.max_events ==> {
            &&& final(st).events@ == (old(st).events@ + page.events@).subrange(
                0,
                budget.max_events as int,
            )
            &&& r.done
            &&& page.next_token is Some ==> r.truncation == (Some(
                FetchTruncation {
                    count: budget.max_events,
                    size_bytes: final(st).total_bytes,
                    reason: TruncationReason::Count,
                },
            ))
            &&& page.next_token is None ==> r.truncation is None
        },
        old(st).events@.len() + page.events@.len() < budget.max_events ==> final(st).events@ == old(
            st,
        ).events@ + page.events@,
        old(st).events@.len() + page.events@.len() < budget.max_events && final(st).total_bytes
            >= budget.max_bytes ==> {
            &&& r.done
            &&& page.next_token is Some ==> r.truncation == (Some(
                FetchTruncation {
                    count: (old(st).events@.len() + page.events@.len()) as usize,
                    size_bytes: final(st).total_bytes,
                    reason: TruncationReason::Size,
                },
            ))
            &&& page.next_token is None ==> r.truncation is None
        },
        old(st).events@.len() + page.events@.len() < budget.max_events && final(st).total_bytes
            < budget.max_bytes ==> {
            &&& r.truncation is None
            &&& r.done == (page.next_token is None)
        },
{
    let LogPage { events, next_token } = page;
    let mut events = events;
    proof {
        lemma_events_size_nonneg(events@);
    }
    let new_size = page_size(&events);
    let has_more = next_token.is_some();
    st.total_bytes = st.total_bytes + new_size;
    st.events.append(&mut events);
    let count = st.events.len();
    let progress = FetchProgress { count, size_bytes: st.total_bytes };
    if count >= budget.max_events {
        st.events.truncate(budget.max_events);
        let truncation = if has_more {
            Some(
                FetchTruncation {
                    count: budget.max_events,
                    size_bytes: st.total_bytes,
                    reason: TruncationReason::Count,
                },
            )
        } else {
            None
        };
        FetchStepResult { progress, truncation, done: true }
    } else if st.total_bytes >= budget.max_bytes {
        let truncation = if has_more {
            Some(
                FetchTruncation {
                    count,
                    size_bytes: st.total_bytes,
                    reason: TruncationReason::Size,
                },
            )
        } else {
            None
        };
        FetchStepResult { progress, truncation, done: true }
    } else {
        FetchStepResult { progress, truncation: None, done: !has_more }
    }
}

/// The concatenation of the events of the first `k` pages.
pub open spec fn pages_events(pages: Seq<LogPage>, k: int) -> Seq<LogEvent>
    decreases k,
{
    if k <= 0 {
        Seq::empty()
    } else {
        pages_events(pages, k - 1) + pages[k - 1].events@
    }
}

/// The total message byte size of the first `k` pages.
pub open spec fn pages_size(pages: Seq<LogPage>, k: int) -> int
    decreases k,
{
    if k <= 0 {
        0
    } else {
        pages_size(pages, k - 1) + events_size(pages[k - 1].events@)
    }
}

pub proof fn lemma_pages_size_mono(pages: Seq<LogPage>, j: int, k: int)
    requires
        0 <= j <= k,
    ensures
        pages_size(pages, j) <= pages_size(pages, k),
    decreases k - j,
{
    if j < k {
        lemma_pages_size_mono(pages, j, k - 1);
        lemma_events_size_nonneg(pages[k - 1].events@);
    }
}

/// How many pages a bulk fetch consumes, scanning from page `k` onward with
/// the first `k` pages already folded in: it stops with the first page that
/// breaches a budget or carries no continuation cursor, or when the supply of
/// pages ends.
pub open spec fn pages_consumed(pages: Seq<LogPage>, budget: FetchBudget, k: int) -> int
    decreases pages.len() - k,
{
    if k >= pages.len() {
        k
    } else if pages_events(pages, k + 1).len() >= budget.max_events || pages_size(pages, k + 1)
        >= budget.max_bytes || pages[k].next_token is None {
        k + 1
    } else {
        pages_consumed(pages, budget, k + 1)
    }
}

pub proof fn lemma_pages_consumed_bounds(pages: Seq<LogPage>, budget: FetchBudget, k: int)
    requires
        0 <= k <= pages.len(),
    ensures
        k <= pages_consumed(pages, budget, k) <= pages.len(),
    decreases pages.len() - k,
{
    if k < pages.len() {
        if !(pages_events(pages, k + 1).len() >= budget.max_events || pages_size(pages, k + 1)
            >= budget.max_bytes || pages[k].next_token is None) {
            lemma_pages_consumed_bounds(pages, budget, k + 1);
        }
    }
}

/// Law: a bulk fetch stops at the first page that breaches a budget or ends
/// the data, and never later. Before the last page consumed, the event count
/// and the byte total stay strictly under their ceilings and a continuation
/// cursor always exists; combined with the contract of `fetch_all`, the loop
/// never overshoots beyond the page that caused the breach.
pub proof fn lemma_fetch_stops_at_first_breach(
    pages: Seq<LogPage>,
    budget: FetchBudget,
    k: int,
)
    requires
        0 <= k,
    ensures
        forall|j: int|
            k <= j < pages_consumed(pages, budget, k) - 1 ==> pages_events(pages, j + 1).len()
                < budget.max_events && pages_size(pages, j + 1) < budget.max_bytes && pages[j].next_token is Some,
    decreases pages.len() - k,
{
    if k < pages.len() {
        let stop_here = pages_events(pages, k + 1).len() >= budget.max_events || pages_size(
            pages,
            k + 1,
        ) >= budget.max_bytes || pages[k].next_token is None;
        if !stop_here {
            lemma_fetch_stops_at_first_breach(pages, budget, k + 1);
        }
    }
}

/// What a completed bulk fetch reports: the (possibly trimmed) events, the
/// byte total over everything appended, the notifications in emission order,
/// and how many pages were requested.
pub struct FetchOutcome {
    pub events: Vec<LogEvent>,
    pub total_bytes: usize,
    pub progress: Vec<FetchProgress>,
    pub truncation: Option<FetchTruncation>,
    pub pages_used: usize,
}

/// Runs a bulk fetch over an in-memory supply of pages, in order, stopping at
/// the first breached budget or at the terminal page. One progress
/// notification is recorded per page consumed; a truncation notification is
/// recorded only when a budget stopped the fetch while a continuation cursor
/// still existed. When the supply ends without a terminal cursor the fetch
/// stops as at a natural end.
pub fn fetch_all(pages: Vec<LogPage>, budget: &FetchBudget) -> (r: FetchOutcome)
    requires
        pages_size(pages@, pages@.len() as int) <= usize::MAX,
    ensures
        r.pages_used == pages_consumed(pages@, *budget, 0),
        r.total_bytes == pages_size(pages@, r.pages_used as int),
        pages_events(pages@, r.pages_used as int).len() >= budget.max_events ==> r.events@
            == pages_events(pages@, r.pages_used as int).subrange(0, budget.max_events as int),
        pages_events(pages@, r.pages_used as int).len() < budget.max_events ==> r.events@
            == pages_events(pages@, r.pages_used as int),
        r.progress@.len() == r.pages_used,
        forall|i: int|
            0 <= i < r.pages_used ==> #[trigger] r.progress@[i] == (FetchProgress {
                count: pages_events(pages@, i + 1).len() as usize,
                size_bytes: pages_size(pages@, i + 1) as usize,
            }),
        r.pages_used == 0 ==> r.truncation is None,
        r.pages_used > 0 ==> {
            let cat = pages_events(pages@, r.pages_used as int);
            let more = pages@[r.pages_used - 1].next_token is Some;
            &&& cat.len() >= budget.max_events && more ==> r.truncation == (Some(
                FetchTruncation {
                    count: budget.max_events,
                    size_bytes: r.total_bytes,
                    reason: TruncationReason::Count,
                },
            ))
            &&& cat.len() < budget.max_events && r.total_bytes >= budget.max_bytes && more
                ==> r.truncation == (Some(
                FetchTruncation {
                    count: cat.len() as usize,
                    size_bytes: r.total_bytes,
                    reason: TruncationReason::Size,
                },
            ))
            &&& !more ==> r.truncation is None
            &&& cat.len() < budget.max_events && r.total_bytes < budget.max_bytes
                ==> r.truncation is None
        },
{
    let ghost orig = pages@;
    let mut pages = pages;
    let n = pages.len();
    let mut st = FetchState::new();
    let mut progress: Vec<FetchProgress> = Vec::new();
    let mut truncation: Option<FetchTruncation> = None;
    let mut done = false;
    let mut i: usize = 0;
    while !done && i < n
        invariant
            n == orig.len(),
            i <= n,
            pages@ =~= orig.skip(i as int),
            pages_size(orig, n as int) <= usize::MAX,
            progress@.len() == i,
            forall|j: int|
                0 <= j < i ==> #[trigger] progress@[j] == (FetchProgress {
                    count: pages_events(orig, j + 1).len() as usize,
                    size_bytes: pages_size(orig, j + 1) as usize,
                }),
            !done ==> {
                &&& pages_consumed(orig, *budget, 0) == pages_consumed(orig, *budget, i as int)
                &&& st.events@ == pages_events(orig, i as int)
                &&& st.total_bytes == pages_size(orig, i as int)
                &&& truncation is None
                &&& i > 0 ==> pages_events(orig, i as int).len() < budget.max_events && pages_size(
                    orig,
                    i as int,
                ) < budget.max_bytes && orig[i - 1].next_token is Some
            },
            done ==> {
                let cat = pages_events(orig, i as int);
                let more = i > 0 && orig[i - 1].next_token is Some;
                &&& i as int == pages_consumed(orig, *budget, 0)
                &&& i > 0
                &&& st.total_bytes == pages_size(orig, i as int)
                &&& cat.len() >= budget.max_events ==> st.events@ == cat.subrange(
                    0,
                    budget.max_events as int,
                )
                &&& cat.len() < budget.max_events ==> st.events@ == cat
                &&& cat.len() >= budget.max_events && more ==> truncation == (Some(
                    FetchTruncation {
                        count: budget.max_events,
                        size_bytes: st.total_bytes,
                        reason: TruncationReason::Count,
                    },
                ))
                &&& cat.len() < budget.max_events && st.total_bytes >= budget.max_bytes && more
                    ==> truncation == (Some(
                    FetchTruncation {
                        count: cat.len() as usize,
                        size_bytes: st.total_bytes,
                        reason: TruncationReason::Size,
                    },
                ))
                &&& !more ==> truncation is None
                &&& cat.len() < budget.max_events && st.total_bytes < budget.max_bytes
                    ==> truncation is None
            },
        decreases n - i,
    {
        let page = pages.remove(0);
        proof {
            assert(orig.skip(i as int)[0] == orig[i as int]);
            assert(orig.skip(i as int).remove(0) =~= orig.skip(i + 1));
            assert(pages_events(orig, i + 1) == pages_events(orig, i as int) + page.events@);
            assert(pages_size(orig, i + 1) == pages_size(orig, i as int) + events_size(
                page.events@,
            ));
            lemma_pages_size_mono(orig, i + 1, n as int);
            lemma_pages_size_mono(orig, 0, i + 1);
        }
        let r = fetch_step(&mut st, page, budget);
        progress.push(r.progress);
        truncation = r.truncation;
        done = r.done;
        proof {
            let k = i as int;
            if pages_events(orig, k + 1).len() >= budget.max_events || pages_size(orig, k + 1)
                >= budget.max_bytes || orig[k].next_token is None {
                assert(pages_consumed(orig, *budget, k) == k + 1);
                assert(done);
            } else {
                assert(pages_consumed(orig, *budget, k) == pages_consumed(orig, *budget, k + 1));
                assert(!done);
            }
        }
        i = i + 1;
    }
    proof {
        if !done {
            assert(i == n);
            lemma_pages_consumed_bounds(orig, *budget, i as int);
            assert(pages_consumed(orig, *budget, i as int) == i as int);
            if i > 0 {
                assert(pages_consumed(orig, *budget, 0) == i as int);
                // scanning ran out of pages: the last page kept a cursor and
                // no budget was breached, so no truncation is due
                assert(pages_events(orig, i as int).len() < budget.max_events);
                assert(pages_size(orig, i as int) < budget.max_bytes);
            } else {
                assert(pages_events(orig, 0) =~= Seq::<LogEvent>::empty());
            }
        }
    }
    FetchOutcome {
        events: st.events,
        total_bytes: st.total_bytes,
        progress,
        truncation,
        pages_used: i,
    }
}

/// An empty filter pattern means "no filter" and is not forwarded to the
/// remote call.
pub fn normalize_filter(filter_pattern: Option<String>) -> (r: Option<String>)
    ensures
        r == (match filter_pattern {
            Some(p) => if p@.len() == 0 {
                None
            } else {
                Some(p)
            },
            None => None::<String>,
        }),
{
    match filter_pattern {
        Some(p) => {
            if p.as_str().is_empty() {
                None
            } else {
                Some(p)
            }
        },
        None => None,
    }
}

} // verus!
