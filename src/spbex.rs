use crate::calendar::{local_now, timestamp_date, utc_date_of};
use crate::endpoints::{push_signed_decimal, signed_decimal};
use crate::model::{Date, HistoryEntry, Price};
use vstd::prelude::*;

verus! {

/// The exchange's daily candles served by a third-party chart service.
pub struct SpbexAPI {
    pub base_url: String,
}

/// A span of UNIX time, in seconds.
#[derive(Clone, Copy, Debug, PartialEq, Eq, Structural)]
pub struct TimeRange {
    pub start: i64,
    pub end: i64,
}

/// Daily candles as parallel series: times, open, high, low and close, and a status.
pub struct SpbexHistoryJSON {
    pub t: Vec<i64>,
    pub o: Vec<Price>,
    pub h: Vec<Price>,
    pub l: Vec<Price>,
    pub c: Vec<Price>,
    pub s: String,
}

#[derive(Clone, Copy, Debug, PartialEq, Eq, Structural)]
pub enum CustomError {
    /// The service knows no candle for the instrument.
    NotFound,
}

pub const SPBEX_BASE_URL: &'static str = "https://investcab.ru/api";

pub open spec fn candles_url(base: Seq<char>, ticker: Seq<char>, range: TimeRange) -> Seq<char> {
    base + "/chistory?symbol="@ + ticker + "&resolution=D&from="@ + signed_decimal(range.start as int)
        + "&to="@ + signed_decimal(range.end as int)
}

/// The service answers with a JSON document escaped into a JSON string: with
/// every backslash removed, the document is what lies between the first and
/// the last character.
pub open spec fn unescaped_payload(text: Seq<char>) -> Option<Seq<char>> {
    let u = text.filter(|c: char| c != '\\');
    if u.len() < 2 {
        None
    } else {
        Some(u.subrange(1, u.len() - 1))
    }
}

/// The number of whole candles: the shortest of the time, high, low and close series.
pub open spec fn candle_count(d: SpbexHistoryJSON) -> int {
    let a = if d.t@.len() <= d.h@.len() { d.t@.len() } else { d.h@.len() };
    let b = if d.l@.len() <= d.c@.len() { d.l@.len() } else { d.c@.len() };
    if a <= b { a as int } else { b as int }
}

/// The entry of candle `i`, dated by the UTC day of its time (1 January 1970
/// when out of range), with no volume.
pub open spec fn candle_entry(d: SpbexHistoryJSON, i: int) -> HistoryEntry {
    HistoryEntry {
        date: match utc_date_of(d.t@[i] as int) {
            Some(x) => x,
            None => Date::epoch(),
        },
        close: d.c@[i],
        high: d.h@[i],
        low: d.l@[i],
        volume: 0,
        facevalue: 1,
    }
}

/// Relies on `str::replace` with the pattern `\` and an empty replacement:
/// every backslash is removed and the other characters are kept in order.
#[verifier::external_body]
fn remove_backslashes(s: &str) -> (r: String)
    ensures
        r@ == s@.filter(|c: char| c != '\\'),
{
    s.replace("\\", "")
}

/// Recovers the JSON document from the service's escaped answer; `None`
/// when fewer than two characters are left to strip.
pub fn unwrap_payload(text: &str) -> (r: Option<String>)
    ensures
        match (r, unescaped_payload(text@)) {
            (Some(s), Some(u)) => s@ == u,
            (None, None) => true,
            _ => false,
        },
{
    let u = remove_backslashes(text);
    let n = u.as_str().unicode_len();
    if n < 2 {
        None
    } else {
        let inner = u.as_str().substring_char(1, n - 1);
        Some(String::from_str(inner))
    }
}

fn min_len(a: usize, b: usize) -> (r: usize)
    ensures
        r == if a <= b { a } else { b },
{
    if a <= b { a } else { b }
}

impl SpbexAPI {
    pub fn new() -> (r: SpbexAPI)
        ensures
            r.base_url@ == SPBEX_BASE_URL@,
    {
        SpbexAPI { base_url: String::from_str(SPBEX_BASE_URL) }
    }

    /// From the start of UNIX time up to now.
    pub fn get_time_range(&self) -> (r: TimeRange)
        ensures
            r.start == 0,
    {
        let (_, now) = local_now();
        TimeRange { start: 0, end: now }
    }

    /// The request for the daily candles of `ticker` over `range`.
    pub fn history_url(&self, ticker: &str, range: TimeRange) -> (r: String)
        ensures
            r@ == candles_url(self.base_url@, ticker@, range),
    {
        let mut u = self.base_url.clone();
        u.append("/chistory?symbol=");
        u.append(ticker);
        u.append("&resolution=D&from=");
        push_signed_decimal(&mut u, range.start);
        u.append("&to=");
        push_signed_decimal(&mut u, range.end);
        u
    }

    /// The history of the candles, in order; an answer without candle times
    /// means the instrument is not found.
    pub fn get_ticker(&self, data: &SpbexHistoryJSON) -> (r: Result<Vec<HistoryEntry>, CustomError>)
        ensures
            r is Err <==> data.t@.len() == 0,
            r matches Ok(h) ==> h@.len() == candle_count(*data) && forall|i: int|
                0 <= i < h@.len() ==> #[trigger] h@[i] == candle_entry(*data, i),
    {
        if data.t.len() == 0 {
            return Err(CustomError::NotFound);
        }
        let n = min_len(min_len(data.t.len(), data.h.len()), min_len(data.l.len(), data.c.len()));
        let mut out: Vec<HistoryEntry> = Vec::new();
        let mut i: usize = 0;
        while i < n
            invariant
                n == candle_count(*data),
                i <= n,
                out@.len() == i,
                forall|j: int| 0 <= j < i ==> #[trigger] out@[j] == candle_entry(*data, j),
            decreases n - i,
        {
            let date = match timestamp_date(data.t[i]) {
                Some(d) => d,
                None => Date::unix_epoch(),
            };
            out.push(HistoryEntry { date, close: data.c[i], high: data.h[i], low: data.l[i], volume: 0, facevalue: 1 });
            i += 1;
        }
        Ok(out)
    }
}

} // verus!
