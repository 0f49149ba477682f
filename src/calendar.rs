use crate::model::Date;
use chrono::Datelike;
use vstd::prelude::*;

verus! {

/// What `chrono::NaiveDate::parse_from_str(s, fmt)` yields for the text `s`
/// and the format `fmt`.
pub uninterp spec fn parsed_date(s: Seq<char>, fmt: Seq<char>) -> Option<Date>;

/// Relies on chrono's `NaiveDate::parse_from_str`: the outcome depends on the
/// text and the format alone, and a parsed `NaiveDate` is always a real
/// calendar date.
#[verifier::external_body]
pub(crate) fn parse_date(s: &str, fmt: &str) -> (r: Option<Date>)
    ensures
        r == parsed_date(s@, fmt@),
        r matches Some(d) ==> d.wf(),
{
    chrono::NaiveDate::parse_from_str(s, fmt).ok().map(
        |d| Date { year: d.year(), month: d.month(), day: d.day() },
    )
}

/// Relies on chrono's `Local::now`: today's date in the machine's time zone,
/// always a real calendar date, and the current UNIX time in seconds.
#[verifier::external_body]
pub(crate) fn local_now() -> (r: (Date, i64))
    ensures
        r.0.wf(),
{
    let now = chrono::Local::now();
    let d = now.date_naive();
    (Date { year: d.year(), month: d.month(), day: d.day() }, now.timestamp())
}

/// What `chrono::DateTime::from_timestamp(secs, 0)` yields, as a UTC calendar date.
pub uninterp spec fn utc_date_of(secs: int) -> Option<Date>;

/// Relies on chrono's `DateTime::from_timestamp` and `DateTime::date_naive`:
/// the UTC date of a UNIX timestamp, `None` out of chrono's range; the outcome
/// depends on the number alone, and a `NaiveDate` is always a real calendar date.
#[verifier::external_body]
pub(crate) fn timestamp_date(secs: i64) -> (r: Option<Date>)
    ensures
        r == utc_date_of(secs as int),
        r matches Some(d) ==> d.wf(),
{
    chrono::DateTime::from_timestamp(secs, 0).map(|t| t.date_naive()).map(
        |d| Date { year: d.year(), month: d.month(), day: d.day() },
    )
}

} // verus!
