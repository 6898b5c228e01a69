//! Listing of log groups: the remote "describe groups" call is paginated, and
//! the listing feeds each page's cursor into the next request, aggregating
//! everything into one ordered collection. Any page failure aborts the whole
//! listing; there is no partial result.

use vstd::prelude::*;

verus! {

/// One log group as the remote API describes it.
#[derive(Debug)]
pub struct LogGroup {
    pub name: String,
    pub arn: Option<String>,
    pub stored_bytes: Option<i64>,
}

impl LogGroup {
    /// Assembles a group from the optional raw fields of a remote record,
    /// defaulting a missing name to the empty string.
    pub fn from_parts(name: Option<String>, arn: Option<String>, stored_bytes: Option<i64>) -> (g:
        LogGroup)
        ensures
            g.name@ == (match name {
                Some(n) => n@,
                None => Seq::<char>::empty(),
            }),
            g.arn == arn,
            g.stored_bytes == stored_bytes,
    {
        LogGroup {
            name: match name {
                Some(n) => n,
                None => String::new(),
            },
            arn,
            stored_bytes,
        }
    }
}

/// One page of the listing: its groups and the continuation cursor; a missing
/// cursor signals the terminal page.
pub struct GroupPage {
    pub groups: Vec<LogGroup>,
    pub next_token: Option<String>,
}

/// The concatenation of the groups of the first `k` pages, in response order.
pub open spec fn groups_of(pages: Seq<GroupPage>, k: int) -> Seq<LogGroup>
    decreases k,
{
    if k <= 0 {
        Seq::empty()
    } else {
        groups_of(pages, k - 1) + pages[k - 1].groups@
    }
}

/// How many pages the listing requests, scanning from page `k` onward: it
/// stops with the first page that carries no continuation cursor, or when the
/// supply of pages ends.
pub open spec fn list_pages_consumed(pages: Seq<GroupPage>, k: int) -> int
    decreases pages.len() - k,
{
    if k >= pages.len() {
        k
    } else if pages[k].next_token is None {
        k + 1
    } else {
        list_pages_consumed(pages, k + 1)
    }
}

pub proof fn lemma_list_pages_consumed_bounds(pages: Seq<GroupPage>, k: int)
    requires
        0 <= k <= pages.len(),
    ensures
        k <= list_pages_consumed(pages, k) <= pages.len(),
    decreases pages.len() - k,
{
    if k < pages.len() && !(pages[k].next_token is None) {
        lemma_list_pages_consumed_bounds(pages, k + 1);
    }
}

/// Law: the listing makes exactly one request per page. Every page before the
/// last one requested carries a continuation cursor, so no request is ever
/// repeated or skipped; the contract of `list_all` adds that the last page
/// requested is the first without a cursor.
pub proof fn lemma_one_request_per_page(pages: Seq<GroupPage>, k: int)
    requires
        0 <= k,
    ensures
        forall|j: int|
            k <= j < list_pages_consumed(pages, k) - 1 ==> pages[j].next_token is Some,
    decreases pages.len() - k,
{
    if k < pages.len() && !(pages[k].next_token is None) {
        lemma_one_request_per_page(pages, k + 1);
    }
}

/// Folds one page of the listing into the aggregate, reporting whether a
/// further page exists.
pub fn append_group_page(groups: &mut Vec<LogGroup>, page: GroupPage) -> (has_more: bool)
    ensures
        final(groups)@ == old(groups)@ + page.groups@,
        has_more == (page.next_token is Some),
{
    let GroupPage { groups: page_groups, next_token } = page;
    let mut page_groups = page_groups;
    groups.append(&mut page_groups);
    next_token.is_some()
}

/// What a completed listing reports: every group of every page requested, in
/// response order, and how many pages were requested — exactly one request
/// per page, up to and including the terminal one.
pub struct ListOutcome {
    pub groups: Vec<LogGroup>,
    pub pages_used: usize,
}

/// Runs the listing over an in-memory supply of pages, in order, stopping
/// with the first page whose cursor is absent. When the supply ends without a
/// terminal cursor, everything supplied has been aggregated.
pub fn list_all(pages: Vec<GroupPage>) -> (r: ListOutcome)
    ensures
        r.pages_used == list_pages_consumed(pages@, 0),
        r.groups@ == groups_of(pages@, r.pages_used as int),
{
    let ghost orig = pages@;
    let mut pages = pages;
    let n = pages.len();
    let mut groups: Vec<LogGroup> = Vec::new();
    let mut done = false;
    let mut i: usize = 0;
    proof {
        assert(orig.skip(0) =~= orig);
    }
    while !done && i < n
        invariant
            n == orig.len(),
            i <= n,
            pages@ =~= orig.skip(i as int),
            groups@ == groups_of(orig, i as int),
            !done ==> list_pages_consumed(orig, 0) == list_pages_consumed(orig, i as int),
            done ==> i as int == list_pages_consumed(orig, 0),
        decreases n - i,
    {
        let page = pages.remove(0);
        proof {
            assert(orig.skip(i as int)[0] == orig[i as int]);
            assert(orig.skip(i as int).remove(0) =~= orig.skip(i + 1));
            assert(groups_of(orig, i + 1) == groups_of(orig, i as int) + page.groups@);
        }
        let has_more = append_group_page(&mut groups, page);
        proof {
            if !has_more {
                assert(list_pages_consumed(orig, i as int) == i + 1);
            } else {
                assert(list_pages_consumed(orig, i as int) == list_pages_consumed(orig, i + 1));
            }
        }
        done = !has_more;
        i = i + 1;
    }
    proof {
        if !done {
            lemma_list_pages_consumed_bounds(orig, i as int);
        }
    }
    ListOutcome { groups, pages_used: i }
}

} // verus!
