use crate::calendar::local_now;
use crate::decode::{
    advance_offset, current_price_entry, is_page_cacheable, next_offset, page_cacheable,
    page_entries, parse_history_page, quote_outcome, rows_decode, select_primary_board,
    first_primary, parameters_of, BoardRow, Cell,
};
use crate::endpoints::{
    build_current_price_url, build_history_url, build_parameters_url, current_price_url,
    history_url, parameters_url, MOEX_BASE_API_URL,
};
use crate::model::{CachedHistoryPage, CustomError, Date, HistoryCursor, HistoryEntry, SecurityParameters};
use vstd::prelude::*;

verus! {

/// The exchange's history source: where its data API lives.
pub struct MoexAPI {
    pub base_url: String,
}

/// Where a history request stands: what it waits for next.
#[derive(Clone, Copy, Debug, PartialEq, Eq, Structural)]
pub enum Stage {
    /// Waits to learn whether the parameters are cached.
    ParametersLookup,
    /// Waits for the cached parameters.
    ParametersRead,
    /// Waits for the board listing.
    ParametersFetch,
    /// Waits for the store to keep the resolved parameters.
    ParametersStore,
    /// Waits to learn whether the page at the current offset is cached.
    PageLookup,
    /// Waits for the cached page.
    PageRead,
    /// Waits for the history response.
    PageFetch,
    /// Waits for the store to keep a full page; `walk_done` when it was the last page.
    PageStore { walk_done: bool },
    /// Waits for the live quote.
    CurrentPrice,
    /// The request has ended.
    Finished,
}

/// What the caller is asked to do next.
pub enum Action {
    /// Ask the cache store whether `key` exists.
    CheckCache { key: String },
    /// Read `key` from the cache store as security parameters.
    ReadCachedParameters { key: String },
    /// Read `key` from the cache store as a history page.
    ReadCachedPage { key: String },
    /// Write the parameters to the cache store under `key`.
    StoreParameters { key: String, params: SecurityParameters },
    /// Write the page to the cache store under `key`.
    StorePage { key: String, page: CachedHistoryPage },
    /// Request the board listing at `url` from the origin.
    FetchBoards { url: String },
    /// Request the history page at `url` from the origin.
    FetchHistory { url: String },
    /// Request the live quote at `url` from the origin.
    FetchCurrentPrice { url: String },
    /// The request is over, with this result.
    Finish { result: Result<Vec<HistoryEntry>, CustomError> },
}

/// What happened when the caller did what it was asked.
#[allow(inconsistent_fields)]
pub enum Event {
    CacheChecked { present: bool },
    CachedParameters { params: SecurityParameters },
    CachedPage { page: CachedHistoryPage },
    Boards { rows: Vec<BoardRow> },
    HistoryPage { rows: Vec<Vec<Cell>>, cursor: Vec<HistoryCursor> },
    Quote { rows: Vec<Vec<Cell>> },
    Stored,
    Failed { error: CustomError },
}

/// A history request for one instrument in progress.
pub struct TickerSession {
    pub base_url: String,
    pub ticker: String,
    pub stage: Stage,
    pub params: SecurityParameters,
    pub offset: i64,
    pub history: Vec<HistoryEntry>,
}

pub open spec fn checks_cache(a: Action, key: Seq<char>) -> bool {
    a matches Action::CheckCache { key: k } && k@ == key
}

pub open spec fn reads_parameters(a: Action, key: Seq<char>) -> bool {
    a matches Action::ReadCachedParameters { key: k } && k@ == key
}

pub open spec fn reads_page(a: Action, key: Seq<char>) -> bool {
    a matches Action::ReadCachedPage { key: k } && k@ == key
}

pub open spec fn stores_parameters(a: Action, key: Seq<char>, p: SecurityParameters) -> bool {
    a matches Action::StoreParameters { key: k, params: q } && k@ == key && q.same(p)
}

pub open spec fn stores_page(a: Action, key: Seq<char>, entries: Seq<HistoryEntry>, meta: HistoryCursor) -> bool {
    a matches Action::StorePage { key: k, page: pg } && k@ == key && pg.history@ == entries && pg.meta == meta
}

pub open spec fn fetches_boards(a: Action, url: Seq<char>) -> bool {
    a matches Action::FetchBoards { url: u } && u@ == url
}

pub open spec fn fetches_history(a: Action, url: Seq<char>) -> bool {
    a matches Action::FetchHistory { url: u } && u@ == url
}

pub open spec fn fetches_current_price(a: Action, url: Seq<char>) -> bool {
    a matches Action::FetchCurrentPrice { url: u } && u@ == url
}

/// The request ends with `r`.
pub open spec fn finishes(post: TickerSession, a: Action, r: Result<Seq<HistoryEntry>, CustomError>) -> bool {
    &&& post.stage == Stage::Finished
    &&& a matches Action::Finish { result } && match (result, r) {
        (Ok(v), Ok(h)) => v@ == h,
        (Err(e), Err(f)) => e == f,
        _ => false,
    }
}

impl TickerSession {
    pub open spec fn wf(self) -> bool {
        self.offset >= 0
    }

    /// The cache key, and origin address, of the parameters.
    pub open spec fn parameters_key(self) -> Seq<char> {
        parameters_url(self.base_url@, self.ticker@)
    }

    /// The cache key, and origin address, of the history page at `offset`.
    pub open spec fn page_key(self, offset: int) -> Seq<char> {
        history_url(self.base_url@, self.params, self.ticker@, offset as nat)
    }

    pub open spec fn quote_url(self) -> Seq<char> {
        current_price_url(self.base_url@, self.params, self.ticker@)
    }

    /// Same instrument, same origin.
    pub open spec fn same_request(self, post: TickerSession) -> bool {
        post.base_url@ == self.base_url@ && post.ticker@ == self.ticker@
    }

    /// Same instrument, parameters, offset and entries.
    pub open spec fn same_walk(self, post: TickerSession) -> bool {
        &&& self.same_request(post)
        &&& post.params.same(self.params)
        &&& post.offset == self.offset
        &&& post.history@ == self.history@
    }

    /// The request has just started: it asks whether the parameters are cached.
    pub open spec fn started(self, base: Seq<char>, ticker: Seq<char>, a: Action) -> bool {
        &&& self.base_url@ == base
        &&& self.ticker@ == ticker
        &&& self.stage == Stage::ParametersLookup
        &&& self.offset == 0
        &&& self.history@.len() == 0
        &&& checks_cache(a, parameters_url(base, ticker))
    }

    /// The walk starts at offset 0 with the resolved parameters `p`.
    pub open spec fn walk_started(self, p: SecurityParameters, post: TickerSession, a: Action) -> bool {
        &&& self.same_request(post)
        &&& post.params.same(p)
        &&& post.offset == 0
        &&& post.history@ == self.history@
        &&& post.stage == Stage::PageLookup
        &&& checks_cache(a, post.page_key(0))
    }

    /// Where the walk goes once the offset is `post.offset`: to the next page,
    /// or, when `walk_done`, to the live quote.
    pub open spec fn walk_goes_on(post: TickerSession, walk_done: bool, a: Action) -> bool {
        if walk_done {
            post.stage == Stage::CurrentPrice && fetches_current_price(a, post.quote_url())
        } else {
            post.stage == Stage::PageLookup && checks_cache(a, post.page_key(post.offset as int))
        }
    }

    /// The page at the current offset, with `entries` and cursor `meta`, is taken:
    /// its entries are appended and the offset moves on as `next_offset` says. A
    /// page that came from the origin and is full is stored first.
    pub open spec fn took_page(
        self,
        entries: Seq<HistoryEntry>,
        meta: HistoryCursor,
        fetched: bool,
        post: TickerSession,
        a: Action,
    ) -> bool {
        match next_offset(self.offset as int, meta) {
            Err(e) => finishes(post, a, Err(e)),
            Ok(next) => {
                &&& self.same_request(post)
                &&& post.params.same(self.params)
                &&& post.history@ == self.history@ + entries
                &&& post.offset == match next {
                    Some(n) => n,
                    None => self.offset as int,
                }
                &&& if fetched && page_cacheable(entries, meta) {
                    &&& post.stage == Stage::PageStore { walk_done: next is None }
                    &&& stores_page(a, self.page_key(self.offset as int), entries, meta)
                } else {
                    TickerSession::walk_goes_on(post, next is None, a)
                }
            },
        }
    }

    /// One step of the request: the stage it was in, the event, the stage it
    /// goes to and the action it asks for.
    pub open spec fn transition(self, event: Event, post: TickerSession, a: Action) -> bool {
        match (self.stage, event) {
            (Stage::Finished, _) => finishes(post, a, Err(CustomError::OriginMalformed)),
            (Stage::CurrentPrice, Event::Quote { rows }) => exists|today: Date|
                today.wf() && finishes(
                    post,
                    a,
                    Ok(with_live_entry(self.history@, quote_outcome(rows@, self.params.board@, today))),
                ),
            (Stage::CurrentPrice, Event::Failed { .. }) => finishes(post, a, Ok(self.history@)),
            (_, Event::Failed { error }) => finishes(post, a, Err(error)),
            (Stage::ParametersLookup, Event::CacheChecked { present }) => {
                &&& self.same_walk(post)
                &&& if present {
                    post.stage == Stage::ParametersRead && reads_parameters(a, self.parameters_key())
                } else {
                    post.stage == Stage::ParametersFetch && fetches_boards(a, self.parameters_key())
                }
            },
            (Stage::ParametersRead, Event::CachedParameters { params }) => self.walk_started(
                params,
                post,
                a,
            ),
            (Stage::ParametersFetch, Event::Boards { rows }) => {
                if exists|k: int| first_primary(rows@, k) {
                    &&& self.same_request(post)
                    &&& post.offset == self.offset
                    &&& post.history@ == self.history@
                    &&& post.stage == Stage::ParametersStore
                    &&& exists|k: int| first_primary(rows@, k) && parameters_of(rows@[k], post.params)
                    &&& stores_parameters(a, self.parameters_key(), post.params)
                } else {
                    finishes(post, a, Err(CustomError::NotFound))
                }
            },
            (Stage::ParametersStore, Event::Stored) => self.walk_started(self.params, post, a),
            (Stage::PageLookup, Event::CacheChecked { present }) => {
                &&& self.same_walk(post)
                &&& if present {
                    post.stage == Stage::PageRead && reads_page(a, self.page_key(self.offset as int))
                } else {
                    post.stage == Stage::PageFetch && fetches_history(a, self.page_key(self.offset as int))
                }
            },
            (Stage::PageRead, Event::CachedPage { page }) => self.took_page(
                page.history@,
                page.meta,
                false,
                post,
                a,
            ),
            (Stage::PageFetch, Event::HistoryPage { rows, cursor }) => {
                if cursor@.len() > 0 && rows_decode(rows@) {
                    self.took_page(page_entries(rows@), cursor@[0], true, post, a)
                } else {
                    finishes(post, a, Err(CustomError::OriginMalformed))
                }
            },
            (Stage::PageStore { walk_done }, Event::Stored) => {
                &&& self.same_walk(post)
                &&& TickerSession::walk_goes_on(post, walk_done, a)
            },
            _ => finishes(post, a, Err(CustomError::OriginMalformed)),
        }
    }
}

/// The history with the live entry of a successful quote appended, its face
/// value taken from the last entry (1 when the history is empty); a failed
/// quote leaves the history as it is.
pub open spec fn with_live_entry(history: Seq<HistoryEntry>, quote: Result<HistoryEntry, CustomError>) -> Seq<HistoryEntry> {
    match quote {
        Ok(e) => history.push(
            HistoryEntry {
                facevalue: if history.len() > 0 {
                    history.last().facevalue
                } else {
                    1
                },
                ..e
            },
        ),
        Err(_) => history,
    }
}

/// Appends the live entry of a successful quote, with the face value of the
/// last entry of the history.
pub fn append_current_price(history: &mut Vec<HistoryEntry>, quote: Result<HistoryEntry, CustomError>)
    ensures
        final(history)@ == with_live_entry(old(history)@, quote),
{
    if let Ok(mut current) = quote {
        if history.len() > 0 {
            current.facevalue = history[history.len() - 1].facevalue;
        } else {
            current.facevalue = 1;
        }
        history.push(current);
    }
}

fn copy_parameters(p: &SecurityParameters) -> (r: SecurityParameters)
    ensures
        r.same(*p),
{
    SecurityParameters { board: p.board.clone(), market: p.market.clone(), engine: p.engine.clone() }
}

fn append_entries(history: &mut Vec<HistoryEntry>, entries: &Vec<HistoryEntry>)
    ensures
        final(history)@ == old(history)@ + entries@,
{
    let ghost start = history@;
    let mut i: usize = 0;
    while i < entries.len()
        invariant
            i <= entries@.len(),
            history@ == start + entries@.subrange(0, i as int),
        decreases entries@.len() - i,
    {
        history.push(entries[i]);
        i += 1;
        assert(history@ =~= start + entries@.subrange(0, i as int));
    }
    assert(entries@.subrange(0, i as int) =~= entries@);
}

impl MoexAPI {
    pub fn new() -> (r: MoexAPI)
        ensures
            r.base_url@ == MOEX_BASE_API_URL@,
    {
        MoexAPI { base_url: String::from_str(MOEX_BASE_API_URL) }
    }

    pub fn with_base_url(base_url: String) -> (r: MoexAPI)
        ensures
            r.base_url@ == base_url@,
    {
        MoexAPI { base_url }
    }

    /// Starts the history request for `ticker`: the session, and its first
    /// action, which asks whether the instrument's parameters are cached.
    pub fn get_ticker(&self, ticker: &str) -> (r: (TickerSession, Action))
        ensures
            r.0.wf(),
            r.0.started(self.base_url@, ticker@, r.1),
    {
        let ticker = String::from_str(ticker);
        let key = build_parameters_url(&self.base_url, &ticker);
        let session = TickerSession {
            base_url: self.base_url.clone(),
            ticker,
            stage: Stage::ParametersLookup,
            params: SecurityParameters { board: String::new(), market: String::new(), engine: String::new() },
            offset: 0,
            history: Vec::new(),
        };
        (session, Action::CheckCache { key })
    }
}

impl TickerSession {
    fn finish(&mut self, result: Result<Vec<HistoryEntry>, CustomError>) -> (a: Action)
        ensures
            final(self).offset == old(self).offset,
            finishes(
                *final(self),
                a,
                match result {
                    Ok(v) => Ok(v@),
                    Err(e) => Err(e),
                },
            ),
    {
        self.stage = Stage::Finished;
        Action::Finish { result }
    }

    fn finish_with_history(&mut self) -> (a: Action)
        ensures
            final(self).offset == old(self).offset,
            finishes(*final(self), a, Ok(old(self).history@)),
    {
        let mut out: Vec<HistoryEntry> = Vec::new();
        std::mem::swap(&mut out, &mut self.history);
        self.finish(Ok(out))
    }

    fn page_key_now(&self) -> (r: String)
        requires
            self.wf(),
        ensures
            r@ == self.page_key(self.offset as int),
    {
        build_history_url(&self.base_url, &self.params, &self.ticker, self.offset as u64)
    }

    fn go_on(&mut self, walk_done: bool) -> (a: Action)
        requires
            old(self).wf(),
        ensures
            final(self).wf(),
            old(self).same_walk(*final(self)),
            TickerSession::walk_goes_on(*final(self), walk_done, a),
    {
        if walk_done {
            self.stage = Stage::CurrentPrice;
            let url = build_current_price_url(&self.base_url, &self.params, &self.ticker);
            Action::FetchCurrentPrice { url }
        } else {
            self.stage = Stage::PageLookup;
            let key = self.page_key_now();
            Action::CheckCache { key }
        }
    }

    fn start_walk(&mut self, params: SecurityParameters) -> (a: Action)
        ensures
            final(self).wf(),
            old(self).walk_started(params, *final(self), a),
    {
        self.params = params;
        self.offset = 0;
        self.stage = Stage::PageLookup;
        let key = self.page_key_now();
        Action::CheckCache { key }
    }

    fn take_page(&mut self, page: CachedHistoryPage, fetched: bool) -> (a: Action)
        requires
            old(self).wf(),
        ensures
            final(self).wf(),
            old(self).took_page(page.history@, page.meta, fetched, *final(self), a),
    {
        match advance_offset(self.offset, &page.meta) {
            Err(e) => self.finish(Err(e)),
            Ok(next) => {
                let key = self.page_key_now();
                append_entries(&mut self.history, &page.history);
                let walk_done = match next {
                    Some(n) => {
                        self.offset = n;
                        false
                    },
                    None => true,
                };
                if fetched && is_page_cacheable(&page) {
                    self.stage = Stage::PageStore { walk_done };
                    Action::StorePage { key, page }
                } else {
                    self.go_on(walk_done)
                }
            },
        }
    }

    /// Advances the request by one event and returns the next action.
    pub fn step(&mut self, event: Event) -> (a: Action)
        requires
            old(self).wf(),
        ensures
            final(self).wf(),
            old(self).transition(event, *final(self), a),
    {
        match (self.stage, event) {
            (Stage::Finished, _) => self.finish(Err(CustomError::OriginMalformed)),
            (Stage::CurrentPrice, Event::Quote { rows }) => {
                let (today, _) = local_now();
                let quote = current_price_entry(&rows, &self.params.board, today);
                append_current_price(&mut self.history, quote);
                self.finish_with_history()
            },
            (Stage::CurrentPrice, Event::Failed { .. }) => self.finish_with_history(),
            (_, Event::Failed { error }) => self.finish(Err(error)),
            (Stage::ParametersLookup, Event::CacheChecked { present }) => {
                let key = build_parameters_url(&self.base_url, &self.ticker);
                if present {
                    self.stage = Stage::ParametersRead;
                    Action::ReadCachedParameters { key }
                } else {
                    self.stage = Stage::ParametersFetch;
                    Action::FetchBoards { url: key }
                }
            },
            (Stage::ParametersRead, Event::CachedParameters { params }) => self.start_walk(params),
            (Stage::ParametersFetch, Event::Boards { rows }) => {
                match select_primary_board(&rows) {
                    Err(e) => self.finish(Err(e)),
                    Ok(params) => {
                        let key = build_parameters_url(&self.base_url, &self.ticker);
                        let stored = copy_parameters(&params);
                        self.params = params;
                        self.stage = Stage::ParametersStore;
                        Action::StoreParameters { key, params: stored }
                    },
                }
            },
            (Stage::ParametersStore, Event::Stored) => {
                let params = copy_parameters(&self.params);
                self.start_walk(params)
            },
            (Stage::PageLookup, Event::CacheChecked { present }) => {
                let key = self.page_key_now();
                if present {
                    self.stage = Stage::PageRead;
                    Action::ReadCachedPage { key }
                } else {
                    self.stage = Stage::PageFetch;
                    Action::FetchHistory { url: key }
                }
            },
            (Stage::PageRead, Event::CachedPage { page }) => self.take_page(page, false),
            (Stage::PageFetch, Event::HistoryPage { rows, cursor }) => {
                match parse_history_page(&rows, &cursor) {
                    Err(e) => self.finish(Err(e)),
                    Ok(page) => self.take_page(page, true),
                }
            },
            (Stage::PageStore { walk_done }, Event::Stored) => self.go_on(walk_done),
            _ => self.finish(Err(CustomError::OriginMalformed)),
        }
    }
}

} // verus!
