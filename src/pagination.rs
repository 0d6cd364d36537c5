use vstd::prelude::*;
use rand::Rng;
use crate::classify::Failure;
use crate::record::Message;

verus! {

/// Records asked for per page.
pub const PAGE_LIMIT: usize = 100;

/// Bounds of the randomized pause between two pages, in milliseconds
/// (`PACING_MIN_MS` included, `PACING_MAX_MS` excluded).
pub const PACING_MIN_MS: u64 = 300;

pub const PACING_MAX_MS: u64 = 1000;

/// What the caller does after a page fetch ended.
#[derive(Debug, PartialEq, Eq)]
pub enum PageStep {
    /// Pause `delay_ms`, then fetch the page that [`PaginationDriver::next_query`] names.
    FetchNext { delay_ms: u64 },
    /// An empty page was seen: the whole history has been consumed.
    Finished,
    /// The fetch failed for good; the records gathered so far stay available.
    Failed(Failure),
}

/// The query string of a page request: `limit=100`, then `&before=<cursor>`
/// once a cursor is known.
pub open spec fn page_query_spec(cursor: Option<Seq<char>>) -> Seq<char> {
    match cursor {
        None => "limit=100"@,
        Some(c) => "limit=100"@ + "&before="@ + c,
    }
}

/// Walks a paginated listing, newest first, with a cursor that only moves
/// forward.
#[derive(Debug)]
pub struct PaginationDriver {
    pub cursor: Option<String>,
    pub records: Vec<Message>,
}

pub open spec fn opt_view(s: Option<String>) -> Option<Seq<char>> {
    match s {
        Some(v) => Some(v@),
        None => None,
    }
}

/// Where the cursor stands after a page: at the last record's identifier
/// when the page holds any, else where it was.
pub open spec fn cursor_after(cursor: Option<Seq<char>>, page: Seq<Message>) -> Option<Seq<char>> {
    if page.len() == 0 { cursor } else { Some(page.last().id@) }
}

/// Records and cursor after a run of successful pages, fetched one after
/// another from `cursor` with `records` already gathered.
pub open spec fn walk(cursor: Option<Seq<char>>, records: Seq<Message>, pages: Seq<Seq<Message>>) -> (Option<Seq<char>>, Seq<Message>)
    decreases pages.len(),
{
    if pages.len() == 0 || pages[0].len() == 0 {
        (cursor, records)
    } else {
        walk(cursor_after(cursor, pages[0]), records + pages[0], pages.drop_first())
    }
}

/// Fetching again from an unchanged cursor against an unchanged remote state
/// gathers exactly the same records: what a walk adds depends on the cursor
/// and the pages alone, not on what was gathered before.
pub proof fn lemma_refetch_is_idempotent(
    cursor: Option<Seq<char>>,
    first: Seq<Message>,
    second: Seq<Message>,
    pages: Seq<Seq<Message>>,
)
    ensures
        walk(cursor, first, pages).0 == walk(cursor, second, pages).0,
        walk(cursor, first, pages).1.skip(first.len() as int)
            == walk(cursor, second, pages).1.skip(second.len() as int),
    decreases pages.len(),
{
    if pages.len() == 0 || pages[0].len() == 0 {
        assert(first.skip(first.len() as int) =~= second.skip(second.len() as int));
    } else {
        let p = pages[0];
        let c = cursor_after(cursor, p);
        lemma_refetch_is_idempotent(c, first + p, second + p, pages.drop_first());
        lemma_walk_extends(c, first + p, pages.drop_first());
        lemma_walk_extends(c, second + p, pages.drop_first());
        let w1 = walk(c, first + p, pages.drop_first()).1;
        let w2 = walk(c, second + p, pages.drop_first()).1;
        lemma_skip_past_page(first, p, w1);
        lemma_skip_past_page(second, p, w2);
    }
}

proof fn lemma_skip_past_page(records: Seq<Message>, p: Seq<Message>, w: Seq<Message>)
    requires
        w.len() >= (records + p).len(),
        w.subrange(0, (records + p).len() as int) == records + p,
    ensures
        w.skip(records.len() as int) == p + w.skip((records + p).len() as int),
{
    assert forall|i: int| 0 <= i < p.len() implies w[records.len() + i] == p[i] by {
        let k = records.len() + i;
        assert(w.subrange(0, (records + p).len() as int)[k] == w[k]);
        assert((records + p)[k] == p[i]);
    }
    assert(w.skip(records.len() as int) =~= p + w.skip((records + p).len() as int));
}

/// A walk only ever appends to the records it started with.
pub proof fn lemma_walk_extends(cursor: Option<Seq<char>>, records: Seq<Message>, pages: Seq<Seq<Message>>)
    ensures
        walk(cursor, records, pages).1.len() >= records.len(),
        walk(cursor, records, pages).1.subrange(0, records.len() as int) == records,
    decreases pages.len(),
{
    if pages.len() == 0 || pages[0].len() == 0 {
        assert(records.subrange(0, records.len() as int) =~= records);
    } else {
        let p = pages[0];
        lemma_walk_extends(cursor_after(cursor, p), records + p, pages.drop_first());
        let w = walk(cursor_after(cursor, p), records + p, pages.drop_first()).1;
        assert(w.subrange(0, records.len() as int) =~= (records + p).subrange(0, records.len() as int));
        assert((records + p).subrange(0, records.len() as int) =~= records);
    }
}

/// Relies on rand's `thread_rng` and `Rng::gen_range`: a value drawn from
/// `low..high`, which the call requires to be non-empty.
#[verifier::external_body]
fn random_in_range(low: u64, high: u64) -> (r: u64)
    requires
        low < high,
    ensures
        low <= r < high,
{
    rand::thread_rng().gen_range(low..high)
}

/// A randomized pause to put between two page fetches, in milliseconds.
pub fn draw_pacing_delay_ms() -> (r: u64)
    ensures
        PACING_MIN_MS <= r < PACING_MAX_MS,
{
    random_in_range(PACING_MIN_MS, PACING_MAX_MS)
}

impl PaginationDriver {
    pub open spec fn cursor_view(&self) -> Option<Seq<char>> {
        opt_view(self.cursor)
    }

    /// A driver at the most recent record, with nothing gathered.
    pub fn new() -> (r: PaginationDriver)
        ensures
            r.cursor is None,
            r.records@.len() == 0,
    {
        PaginationDriver { cursor: None, records: Vec::new() }
    }

    /// The query string of the next page request.
    pub fn next_query(&self) -> (r: String)
        ensures
            r@ == page_query_spec(self.cursor_view()),
    {
        let mut q = String::from_str("limit=100");
        proof {
            reveal_strlit("limit=100");
            reveal_strlit("&before=");
        }
        match &self.cursor {
            None => {},
            Some(c) => {
                q.append("&before=");
                q.append(c.as_str());
            },
        }
        q
    }

    /// Feeds the terminal result of one page fetch. A non-empty page is
    /// appended and moves the cursor to its last record; an empty page ends
    /// the walk; a failure ends it too and keeps what was gathered.
    /// `pacing_ms` is the pause to take before the next fetch.
    pub fn on_page(&mut self, result: Result<Vec<Message>, Failure>, pacing_ms: u64) -> (r: PageStep)
        ensures
            match result {
                Ok(page) => if page@.len() > 0 {
                    &&& final(self).records@ == old(self).records@ + page@
                    &&& final(self).cursor_view() == cursor_after(old(self).cursor_view(), page@)
                    &&& r == PageStep::FetchNext { delay_ms: pacing_ms }
                } else {
                    &&& final(self).records@ == old(self).records@
                    &&& final(self).cursor_view() == old(self).cursor_view()
                    &&& r == PageStep::Finished
                },
                Err(f) => {
                    &&& final(self).records@ == old(self).records@
                    &&& final(self).cursor_view() == old(self).cursor_view()
                    &&& r == PageStep::Failed(f)
                },
            },
            old(self).cursor is Some ==> final(self).cursor is Some,
    {
        match result {
            Ok(page) => {
                let n = page.len();
                if n == 0 {
                    return PageStep::Finished;
                }
                let last_id = page[n - 1].id.clone();
                let mut page = page;
                self.records.append(&mut page);
                self.cursor = Some(last_id);
                PageStep::FetchNext { delay_ms: pacing_ms }
            },
            Err(f) => PageStep::Failed(f),
        }
    }
}

} // verus!
