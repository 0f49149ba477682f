use exchange_history::cbr::{CbrAPI, CbrApiXML, Record};
use exchange_history::model::{Date, HistoryEntry, Price};
use exchange_history::spbex::{self, SpbexAPI, SpbexHistoryJSON, TimeRange};

fn price(x: f64) -> Price {
    Price::from_bits(x.to_bits())
}

fn record(date: &str, rate: &str) -> Record {
    Record {
        nominal: "1".to_string(),
        value: rate.to_string(),
        vunit_rate: rate.to_string(),
        date: date.to_string(),
        id: "R01235".to_string(),
    }
}

#[test]
fn cbr_codes() {
    let api = CbrAPI::new();
    assert_eq!(api.map_ticker_to_code("usd"), "R01235");
    assert_eq!(api.map_ticker_to_code("cny"), "R01375");
    assert_eq!(api.map_ticker_to_code("eur"), "R01239");
    assert_eq!(api.map_ticker_to_code("gbp"), "R01235");
}

#[test]
fn cbr_url() {
    let api = CbrAPI::new();
    assert_eq!(
        api.history_url("eur", "18/10/2026"),
        "https://www.cbr.ru/scripts/XML_dynamic.asp?date_req1=01/01/2014&date_req2=18/10/2026&VAL_NM_RQ=R01239"
    );
}

#[test]
fn cbr_records_become_entries() {
    let api = CbrAPI::new();
    let xml = CbrApiXML {
        record: vec![record("09.01.2024", "90,4"), record("bad", "91,0")],
        id: "R01235".to_string(),
        date_range1: "01.01.2024".to_string(),
        date_range2: "10.01.2024".to_string(),
        name: "Foreign Currency Market Dynamic".to_string(),
    };
    let history = api.get_ticker(&xml, &vec![price(90.4), price(91.0)]);
    let p = price(90.4);
    assert_eq!(
        history[0],
        HistoryEntry { date: Date { year: 2024, month: 1, day: 9 }, close: p, high: p, low: p, volume: 0, facevalue: 1 }
    );
    assert_eq!(history[1].date, Date { year: 1970, month: 1, day: 1 });
    assert_eq!(history.len(), 2);
}

#[test]
fn spbex_payload_is_unescaped() {
    assert_eq!(
        spbex::unwrap_payload("\"{\\\"t\\\":[1],\\\"s\\\":\\\"ok\\\"}\""),
        Some("{\"t\":[1],\"s\":\"ok\"}".to_string())
    );
    assert_eq!(spbex::unwrap_payload("\\\\x"), None);
    assert_eq!(spbex::unwrap_payload("ab"), Some(String::new()));
}

#[test]
fn spbex_url() {
    let api = SpbexAPI::new();
    assert_eq!(
        api.history_url("aapl", TimeRange { start: 0, end: 1700000000 }),
        "https://investcab.ru/api/chistory?symbol=aapl&resolution=D&from=0&to=1700000000"
    );
    assert_eq!(
        api.history_url("x", TimeRange { start: -5, end: 7 }),
        "https://investcab.ru/api/chistory?symbol=x&resolution=D&from=-5&to=7"
    );
    assert_eq!(api.get_time_range().start, 0);
}

#[test]
fn spbex_candles_become_entries() {
    let api = SpbexAPI::new();
    let data = SpbexHistoryJSON {
        t: vec![1431648000, 1431734400, 1431820800],
        o: vec![],
        h: vec![price(11.0), price(12.0), price(13.0)],
        l: vec![price(9.0), price(10.0)],
        c: vec![price(10.0), price(11.0), price(12.0)],
        s: "ok".to_string(),
    };
    let history = api.get_ticker(&data).unwrap();
    assert_eq!(history.len(), 2);
    assert_eq!(
        history[0],
        HistoryEntry {
            date: Date { year: 2015, month: 5, day: 15 },
            close: price(10.0),
            high: price(11.0),
            low: price(9.0),
            volume: 0,
            facevalue: 1
        }
    );
    assert_eq!(history[1].date, Date { year: 2015, month: 5, day: 16 });
}

#[test]
fn spbex_without_candles_is_not_found() {
    let api = SpbexAPI::new();
    let data = SpbexHistoryJSON { t: vec![], o: vec![], h: vec![], l: vec![], c: vec![], s: "no_data".to_string() };
    assert_eq!(api.get_ticker(&data), Err(spbex::CustomError::NotFound));
}

#[test]
fn spbex_out_of_range_time_reads_epoch() {
    let api = SpbexAPI::new();
    let p = price(1.0);
    let data = SpbexHistoryJSON { t: vec![i64::MAX], o: vec![], h: vec![p], l: vec![p], c: vec![p], s: "ok".to_string() };
    assert_eq!(api.get_ticker(&data).unwrap()[0].date, Date { year: 1970, month: 1, day: 1 });
}
