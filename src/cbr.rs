use crate::calendar::{parse_date, parsed_date};
use crate::model::{Date, HistoryEntry, Price};
use vstd::prelude::*;

verus! {

/// The central bank's source of official exchange rates.
pub struct CbrAPI {
    pub base_url: String,
}

/// The rate history document: its records and the attributes of the request.
pub struct CbrApiXML {
    pub record: Vec<Record>,
    pub id: String,
    pub date_range1: String,
    pub date_range2: String,
    pub name: String,
}

/// One day of the rate history; the date is written `DD.MM.YYYY` and the rate
/// per unit with a decimal comma.
pub struct Record {
    pub nominal: String,
    pub value: String,
    pub vunit_rate: String,
    pub date: String,
    pub id: String,
}

pub const CBR_BASE_URL: &'static str = "https://www.cbr.ru";

/// The form of a record's date: `DD.MM.YYYY`.
pub const CBR_DATE_FORMAT: &'static str = "%d.%m.%Y";

/// The first day of every rate history that is asked for.
pub const CBR_START_DATE: &'static str = "01/01/2014";

/// The central bank's code of a currency: yuan and euro have their own, and
/// anything else, `usd` among them, is taken for the US dollar.
pub open spec fn currency_code(ticker: Seq<char>) -> Seq<char> {
    if ticker == "cny"@ {
        "R01375"@
    } else if ticker == "eur"@ {
        "R01239"@
    } else {
        "R01235"@
    }
}

pub open spec fn rates_url(base: Seq<char>, code: Seq<char>, end_date: Seq<char>) -> Seq<char> {
    base + "/scripts/XML_dynamic.asp?date_req1="@ + CBR_START_DATE@ + "&date_req2="@ + end_date
        + "&VAL_NM_RQ="@ + code
}

/// The entry of one record whose rate reads as `rate`: the rate is the close,
/// high and low at once, there is no volume, and an unreadable date stands as
/// 1 January 1970.
pub open spec fn record_entry(date: Seq<char>, rate: Price) -> HistoryEntry {
    HistoryEntry {
        date: match parsed_date(date, CBR_DATE_FORMAT@) {
            Some(d) => d,
            None => Date::epoch(),
        },
        close: rate,
        high: rate,
        low: rate,
        volume: 0,
        facevalue: 1,
    }
}

fn str_equals(a: &str, b: &str) -> (r: bool)
    ensures
        r == (a@ == b@),
{
    let n = a.unicode_len();
    if n != b.unicode_len() {
        return false;
    }
    let mut i: usize = 0;
    while i < n
        invariant
            n == a@.len(),
            n == b@.len(),
            i <= n,
            forall|j: int| 0 <= j < i ==> a@[j] == b@[j],
        decreases n - i,
    {
        if a.get_char(i) != b.get_char(i) {
            return false;
        }
        i += 1;
    }
    assert(a@ =~= b@);
    true
}

impl CbrAPI {
    pub fn new() -> (r: CbrAPI)
        ensures
            r.base_url@ == CBR_BASE_URL@,
    {
        CbrAPI { base_url: String::from_str(CBR_BASE_URL) }
    }

    pub fn map_ticker_to_code(&self, ticker: &str) -> (r: String)
        ensures
            r@ == currency_code(ticker@),
    {
        if str_equals(ticker, "cny") {
            String::from_str("R01375")
        } else if str_equals(ticker, "eur") {
            String::from_str("R01239")
        } else {
            String::from_str("R01235")
        }
    }

    /// The request for the rates of `ticker`'s currency from the first day up to `end_date`.
    pub fn history_url(&self, ticker: &str, end_date: &str) -> (r: String)
        ensures
            r@ == rates_url(self.base_url@, currency_code(ticker@), end_date@),
    {
        let code = self.map_ticker_to_code(ticker);
        let mut u = self.base_url.clone();
        u.append("/scripts/XML_dynamic.asp?date_req1=");
        u.append(CBR_START_DATE);
        u.append("&date_req2=");
        u.append(end_date);
        u.append("&VAL_NM_RQ=");
        u.append(code.as_str());
        u
    }

    /// The history of the document's records, in order, where `rates[i]` is
    /// the rate of record `i` as a number.
    pub fn get_ticker(&self, xml: &CbrApiXML, rates: &Vec<Price>) -> (r: Vec<HistoryEntry>)
        requires
            rates@.len() == xml.record@.len(),
        ensures
            r@.len() == xml.record@.len(),
            forall|i: int|
                0 <= i < r@.len() ==> #[trigger] r@[i] == record_entry(xml.record@[i].date@, rates@[i]),
    {
        let mut out: Vec<HistoryEntry> = Vec::new();
        let mut i: usize = 0;
        while i < xml.record.len()
            invariant
                rates@.len() == xml.record@.len(),
                i <= xml.record@.len(),
                out@.len() == i,
                forall|j: int|
                    0 <= j < i ==> #[trigger] out@[j] == record_entry(xml.record@[j].date@, rates@[j]),
            decreases xml.record@.len() - i,
        {
            let date = match parse_date(xml.record[i].date.as_str(), CBR_DATE_FORMAT) {
                Some(d) => d,
                None => Date::unix_epoch(),
            };
            let rate = rates[i];
            out.push(HistoryEntry { date, close: rate, high: rate, low: rate, volume: 0, facevalue: 1 });
            i += 1;
        }
        out
    }
}

} // verus!
