use crate::decode::{first_primary, next_offset, parameters_of, BoardRow};
use crate::endpoints::parameters_url;
use crate::model::{CustomError, Date, HistoryCursor, HistoryEntry, SecurityParameters};
use crate::session::{
    checks_cache, fetches_boards, reads_parameters, stores_parameters, with_live_entry, Action, Event,
    Stage, TickerSession,
};
use vstd::prelude::*;

verus! {

/// Every entry is dated strictly before every later one: the dates ascend and
/// none occurs twice.
pub open spec fn chronological(h: Seq<HistoryEntry>) -> bool {
    forall|i: int, j: int| 0 <= i < j < h.len() ==> (#[trigger] h[i]).date.before(#[trigger] h[j].date)
}

pub proof fn lemma_before_transitive(x: Date, y: Date, z: Date)
    requires
        x.before(y),
        y.before(z),
    ensures
        x.before(z),
{
}

/// Two chronological pages, the second starting after the first ends, make a
/// chronological history when concatenated.
pub proof fn lemma_pages_concatenate_chronologically(a: Seq<HistoryEntry>, b: Seq<HistoryEntry>)
    requires
        chronological(a),
        chronological(b),
        a.len() > 0 && b.len() > 0 ==> a.last().date.before(b[0].date),
    ensures
        chronological(a + b),
{
    let c = a + b;
    assert forall|i: int, j: int| 0 <= i < j < c.len() implies (#[trigger] c[i]).date.before(
        #[trigger] c[j].date,
    ) by {
        if j < a.len() {
        } else if i >= a.len() {
            assert(c[i] == b[i - a.len()] && c[j] == b[j - a.len()]);
        } else {
            let last = a.len() - 1;
            let jb = j - a.len();
            if i < last {
                assert(a[i].date.before(a[last].date));
            }
            if jb > 0 {
                assert(b[0].date.before(b[jb].date));
                lemma_before_transitive(a.last().date, b[0].date, b[jb].date);
            }
            if i < last {
                lemma_before_transitive(a[i].date, a.last().date, b[jb].date);
            }
        }
    }
}

/// Appending the live entry of a quote dated after the last entry keeps a
/// chronological history chronological; a failed quote leaves it unchanged.
pub proof fn lemma_live_entry_keeps_order(h: Seq<HistoryEntry>, quote: Result<HistoryEntry, CustomError>)
    requires
        chronological(h),
        quote matches Ok(e) ==> (h.len() > 0 ==> h.last().date.before(e.date)),
    ensures
        chronological(with_live_entry(h, quote)),
{
    if let Ok(e) = quote {
        let r = with_live_entry(h, quote);
        assert(r.drop_last() =~= h);
        assert forall|i: int, j: int| 0 <= i < j < r.len() implies (#[trigger] r[i]).date.before(
            #[trigger] r[j].date,
        ) by {
            if j == h.len() && i < h.len() - 1 {
                assert(h[i].date.before(h.last().date));
                lemma_before_transitive(h[i].date, h.last().date, e.date);
            }
        }
    }
}

/// How many pages the walk from `offset` reads before it stops, when the
/// origin reports the cursors `metas` in turn; `None` when the walk is rejected
/// or needs more pages than `metas` holds.
pub open spec fn pages_walked(offset: int, metas: Seq<HistoryCursor>) -> Option<int>
    decreases metas.len(),
{
    if metas.len() == 0 {
        None
    } else {
        match next_offset(offset, metas[0]) {
            Ok(None) => Some(1),
            Ok(Some(n)) => match pages_walked(n, metas.drop_first()) {
                Some(k) => Some(k + 1),
                None => None,
            },
            Err(_) => None,
        }
    }
}

/// The offset after the first `k` pages of `metas`.
pub open spec fn offset_after(offset: int, metas: Seq<HistoryCursor>, k: int) -> int
    decreases k,
{
    if k <= 0 || metas.len() == 0 {
        offset
    } else {
        offset_after(offset + metas[0].page_size, metas.drop_first(), k - 1)
    }
}

/// The walk terminates: when every page reports the same total and a page size
/// of at least one, the walk from `offset` stops after at most `total - offset`
/// pages, at the first page where the cumulative offset reaches the total.
pub proof fn lemma_walk_terminates(offset: int, total: int, metas: Seq<HistoryCursor>)
    requires
        0 <= offset < total,
        metas.len() >= total - offset,
        forall|i: int| 0 <= i < metas.len() ==> (#[trigger] metas[i]).total == total && metas[i].page_size > 0,
    ensures
        pages_walked(offset, metas) matches Some(k) && {
            &&& 1 <= k <= total - offset
            &&& offset_after(offset, metas, k) >= total
            &&& offset_after(offset, metas, k - 1) < total
        },
    decreases metas.len(),
{
    let m = metas[0];
    let n = offset + m.page_size;
    if n >= total {
        assert(offset_after(n, metas.drop_first(), 0) == n);
    } else {
        let rest = metas.drop_first();
        assert forall|i: int| 0 <= i < rest.len() implies (#[trigger] rest[i]).total == total
            && rest[i].page_size > 0 by {
            assert(rest[i] == metas[i + 1]);
        }
        lemma_walk_terminates(n, total, rest);
    }
}

/// A page that reports a page size of zero or less while its total is beyond
/// where the walk would go is rejected as malformed rather than asked for again.
pub proof fn lemma_stalled_page_rejected(offset: int, meta: HistoryCursor)
    requires
        meta.page_size <= 0,
        offset + meta.page_size < meta.total,
    ensures
        next_offset(offset, meta) == Err::<Option<int>, CustomError>(CustomError::OriginMalformed),
{
}

/// Resolution is memoized. A first request for an instrument that misses the
/// cache fetches the board listing and stores the selected parameters under the
/// key it looked up. A second request for the same instrument and origin looks
/// up that same key; when the store answers with what was stored, it reads them
/// and starts the history walk with identical parameters, and at no step asks
/// the origin for the board listing.
pub proof fn lemma_parameters_memoized(
    base: Seq<char>,
    ticker: Seq<char>,
    s0: TickerSession,
    a0: Action,
    s1: TickerSession,
    a1: Action,
    rows: Vec<BoardRow>,
    s2: TickerSession,
    a2: Action,
    stored: SecurityParameters,
    t0: TickerSession,
    b0: Action,
    t1: TickerSession,
    b1: Action,
    t2: TickerSession,
    b2: Action,
)
    requires
        s0.started(base, ticker, a0),
        s0.transition(Event::CacheChecked { present: false }, s1, a1),
        s1.transition(Event::Boards { rows }, s2, a2),
        a2 matches Action::StoreParameters { key, params } && params.same(stored),
        t0.started(base, ticker, b0),
        t0.transition(Event::CacheChecked { present: true }, t1, b1),
        t1.transition(Event::CachedParameters { params: stored }, t2, b2),
    ensures
        fetches_boards(a1, parameters_url(base, ticker)),
        stores_parameters(a2, parameters_url(base, ticker), s2.params),
        checks_cache(b0, parameters_url(base, ticker)),
        reads_parameters(b1, parameters_url(base, ticker)),
        t2.stage == Stage::PageLookup,
        t2.params.same(s2.params),
        exists|k: int| first_primary(rows@, k) && parameters_of(rows@[k], t2.params),
        !(b0 is FetchBoards) && !(b1 is FetchBoards) && !(b2 is FetchBoards),
{
}

} // verus!
