use crate::model::SecurityParameters;
use vstd::prelude::*;

verus! {

/// Relies on `String::push`, which appends one character.
pub assume_specification[ String::push ](s: &mut String, ch: char)
    ensures
        final(s)@ == old(s)@.push(ch),
;

pub open spec fn digit_char(d: nat) -> char {
    ((d + 48) as u8) as char
}

/// The decimal text of a natural number, without leading zeros.
pub open spec fn decimal(n: nat) -> Seq<char>
    decreases n,
{
    if n < 10 {
        seq![digit_char(n)]
    } else {
        decimal(n / 10).push(digit_char(n % 10))
    }
}

fn push_decimal(s: &mut String, n: u64)
    ensures
        final(s)@ == old(s)@ + decimal(n as nat),
    decreases n,
{
    let ghost start = s@;
    if n >= 10 {
        push_decimal(s, n / 10);
    }
    let d: u8 = (n % 10) as u8;
    s.push((d + 48) as char);
    assert(s@ =~= start + decimal(n as nat));
}

/// The decimal text of an integer, with a leading `-` when it is negative.
pub open spec fn signed_decimal(n: int) -> Seq<char> {
    if n < 0 {
        seq!['-'] + decimal((-n) as nat)
    } else {
        decimal(n as nat)
    }
}

pub(crate) fn push_signed_decimal(s: &mut String, n: i64)
    ensures
        final(s)@ == old(s)@ + signed_decimal(n as int),
{
    let ghost start = s@;
    if n < 0 {
        s.push('-');
        let m: u64 = (0i128 - n as i128) as u64;
        push_decimal(s, m);
        assert(s@ =~= start + signed_decimal(n as int));
    } else {
        push_decimal(s, n as u64);
    }
}

/// The base address of the exchange's data API.
pub const MOEX_BASE_API_URL: &'static str = "https://iss.moex.com";

/// The board-listing request for an instrument; also the cache key of its parameters.
pub open spec fn parameters_url(base: Seq<char>, ticker: Seq<char>) -> Seq<char> {
    base + "/iss/securities/"@ + ticker
        + ".json?iss.only=boards&iss.meta=off&boards.columns=boardid,market,engine,is_primary"@
}

/// The history request for the page at `offset`; also the cache key of that page.
pub open spec fn history_url(base: Seq<char>, p: SecurityParameters, ticker: Seq<char>, offset: nat) -> Seq<char> {
    base + "/iss/history/engines/"@ + p.engine@ + "/markets/"@ + p.market@ + "/boards/"@ + p.board@
        + "/securities/"@ + ticker + ".json?iss.meta=off&start="@ + decimal(offset)
        + "&history.columns=TRADEDATE,CLOSE,HIGH,LOW,VOLUME,FACEVALUE"@
}

/// The live-quote request for an instrument on its market.
pub open spec fn current_price_url(base: Seq<char>, p: SecurityParameters, ticker: Seq<char>) -> Seq<char> {
    base + "/iss/engines/"@ + p.engine@ + "/markets/"@ + p.market@ + "/securities/"@ + ticker
        + ".json?iss.meta=off&iss.only=marketdata&marketdata.columns=BOARDID,LAST,HIGH,LOW,VOLTODAY"@
}

pub fn build_parameters_url(base: &String, ticker: &String) -> (r: String)
    ensures
        r@ == parameters_url(base@, ticker@),
{
    let mut u = base.clone();
    u.append("/iss/securities/");
    u.append(ticker.as_str());
    u.append(".json?iss.only=boards&iss.meta=off&boards.columns=boardid,market,engine,is_primary");
    u
}

pub fn build_history_url(base: &String, p: &SecurityParameters, ticker: &String, offset: u64) -> (r: String)
    ensures
        r@ == history_url(base@, *p, ticker@, offset as nat),
{
    let mut u = base.clone();
    u.append("/iss/history/engines/");
    u.append(p.engine.as_str());
    u.append("/markets/");
    u.append(p.market.as_str());
    u.append("/boards/");
    u.append(p.board.as_str());
    u.append("/securities/");
    u.append(ticker.as_str());
    u.append(".json?iss.meta=off&start=");
    push_decimal(&mut u, offset);
    u.append("&history.columns=TRADEDATE,CLOSE,HIGH,LOW,VOLUME,FACEVALUE");
    u
}

pub fn build_current_price_url(base: &String, p: &SecurityParameters, ticker: &String) -> (r: String)
    ensures
        r@ == current_price_url(base@, *p, ticker@),
{
    let mut u = base.clone();
    u.append("/iss/engines/");
    u.append(p.engine.as_str());
    u.append("/markets/");
    u.append(p.market.as_str());
    u.append("/securities/");
    u.append(ticker.as_str());
    u.append(".json?iss.meta=off&iss.only=marketdata&marketdata.columns=BOARDID,LAST,HIGH,LOW,VOLTODAY");
    u
}

} // verus!
