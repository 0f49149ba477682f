use crate::calendar::{parse_date, parsed_date};
use crate::model::{CachedHistoryPage, CustomError, Date, HistoryCursor, HistoryEntry, Price, SecurityParameters};
use vstd::prelude::*;

verus! {

/// One cell of a positional JSON row, held as what the decoding reads of it:
/// its text if it is a string, its value if it is an integer that fits in `i64`,
/// and its value as a double (by bit pattern) if it is a number.
#[derive(Clone, Debug)]
pub struct Cell {
    pub text: Option<String>,
    pub integer: Option<i64>,
    pub number: Option<Price>,
}

/// One row of the board listing: board id, market, engine and the primary flag.
#[derive(Clone, Debug)]
pub struct BoardRow {
    pub board: String,
    pub market: String,
    pub engine: String,
    pub is_primary: i64,
}

/// A number cell read as a price; anything else reads as zero.
pub open spec fn price_of(c: Cell) -> Price {
    match c.number {
        Some(p) => p,
        None => Price { bits: 0 },
    }
}

/// An integer cell read as its value; anything else reads as `default`.
pub open spec fn integer_of(c: Cell, default: i64) -> i64 {
    match c.integer {
        Some(v) => v,
        None => default,
    }
}

/// The form of a date in history rows: `YYYY-MM-DD`.
pub const ISO_DATE_FORMAT: &'static str = "%Y-%m-%d";

/// The date in the first cell of a history row, if it is text in `YYYY-MM-DD` form.
pub open spec fn row_date(row: Seq<Cell>) -> Option<Date> {
    if row.len() > 0 && row[0].text is Some {
        parsed_date(row[0].text->0@, ISO_DATE_FORMAT@)
    } else {
        None
    }
}

/// The entry that a history row `[date, close, high, low, volume, facevalue?]`
/// stands for. The face value is read only from a row of exactly six cells and
/// is 1 otherwise.
pub open spec fn history_row_entry(row: Seq<Cell>) -> Result<HistoryEntry, CustomError> {
    if row.len() < 5 || row_date(row) is None {
        Err(CustomError::OriginMalformed)
    } else {
        Ok(
            HistoryEntry {
                date: row_date(row)->0,
                close: price_of(row[1]),
                high: price_of(row[2]),
                low: price_of(row[3]),
                volume: integer_of(row[4], 0),
                facevalue: if row.len() == 6 {
                    integer_of(row[5], 1)
                } else {
                    1
                },
            },
        )
    }
}

pub open spec fn rows_decode(rows: Seq<Vec<Cell>>) -> bool {
    forall|i: int| 0 <= i < rows.len() ==> history_row_entry(#[trigger] rows[i]@) is Ok
}

/// The entries of history rows that all decode.
pub open spec fn page_entries(rows: Seq<Vec<Cell>>) -> Seq<HistoryEntry> {
    rows.map_values(|r: Vec<Cell>| history_row_entry(r@)->Ok_0)
}

fn cell_price(c: &Cell) -> (r: Price)
    ensures
        r == price_of(*c),
{
    match c.number {
        Some(p) => p,
        None => Price::zero(),
    }
}

fn cell_integer(c: &Cell, default: i64) -> (r: i64)
    ensures
        r == integer_of(*c, default),
{
    match c.integer {
        Some(v) => v,
        None => default,
    }
}

/// Decodes one history row.
pub fn parse_history_row(row: &Vec<Cell>) -> (r: Result<HistoryEntry, CustomError>)
    ensures
        r == history_row_entry(row@),
{
    if row.len() < 5 {
        return Err(CustomError::OriginMalformed);
    }
    let date = match &row[0].text {
        Some(t) => parse_date(t.as_str(), ISO_DATE_FORMAT),
        None => None,
    };
    match date {
        None => Err(CustomError::OriginMalformed),
        Some(date) => {
            let facevalue = if row.len() == 6 {
                cell_integer(&row[5], 1)
            } else {
                1
            };
            Ok(
                HistoryEntry {
                    date,
                    close: cell_price(&row[1]),
                    high: cell_price(&row[2]),
                    low: cell_price(&row[3]),
                    volume: cell_integer(&row[4], 0),
                    facevalue,
                },
            )
        },
    }
}

/// Decodes a history response: its rows, in order, and the first cursor tuple.
/// Any row that does not decode, or a missing cursor, makes the page malformed.
pub fn parse_history_page(rows: &Vec<Vec<Cell>>, cursor: &Vec<HistoryCursor>) -> (r: Result<
    CachedHistoryPage,
    CustomError,
>)
    ensures
        r is Ok <==> cursor@.len() > 0 && rows_decode(rows@),
        r is Err ==> r == Err::<CachedHistoryPage, CustomError>(CustomError::OriginMalformed),
        r matches Ok(page) ==> page.meta == cursor@[0] && page.history@ == page_entries(rows@),
{
    if cursor.len() == 0 {
        return Err(CustomError::OriginMalformed);
    }
    let meta = cursor[0];
    let mut history: Vec<HistoryEntry> = Vec::new();
    let mut i: usize = 0;
    while i < rows.len()
        invariant
            i <= rows@.len(),
            history@.len() == i,
            forall|j: int|
                0 <= j < i ==> history_row_entry(#[trigger] rows@[j]@) == Ok::<
                    HistoryEntry,
                    CustomError,
                >(history@[j]),
        decreases rows@.len() - i,
    {
        match parse_history_row(&rows[i]) {
            Ok(e) => history.push(e),
            Err(_) => return Err(CustomError::OriginMalformed),
        }
        i += 1;
    }
    assert(history@ =~= page_entries(rows@));
    Ok(CachedHistoryPage { history, meta })
}

/// A page is stored in the cache only when it is non-empty and its length is
/// an exact multiple of its own page size; a page size of zero or less never is.
pub open spec fn page_cacheable(entries: Seq<HistoryEntry>, meta: HistoryCursor) -> bool {
    &&& entries.len() > 0
    &&& meta.page_size > 0
    &&& (entries.len() as int) % (meta.page_size as int) == 0
}

pub fn is_page_cacheable(page: &CachedHistoryPage) -> (r: bool)
    ensures
        r == page_cacheable(page.history@, page.meta),
{
    let n = page.history.len() as u64;
    if n == 0 || page.meta.page_size <= 0 {
        false
    } else {
        n % (page.meta.page_size as u64) == 0
    }
}

/// Row `k` is the first board of the listing flagged primary (flag equal to 1).
pub open spec fn first_primary(rows: Seq<BoardRow>, k: int) -> bool {
    &&& 0 <= k < rows.len()
    &&& rows[k].is_primary == 1
    &&& forall|j: int| 0 <= j < k ==> (#[trigger] rows[j]).is_primary != 1
}

pub open spec fn parameters_of(row: BoardRow, p: SecurityParameters) -> bool {
    &&& p.board@ == row.board@
    &&& p.market@ == row.market@
    &&& p.engine@ == row.engine@
}

/// Selects the parameters of the first board flagged primary; an instrument
/// with no primary board is not found.
pub fn select_primary_board(rows: &Vec<BoardRow>) -> (r: Result<SecurityParameters, CustomError>)
    ensures
        r is Err <==> forall|j: int| 0 <= j < rows@.len() ==> (#[trigger] rows@[j]).is_primary != 1,
        r is Err ==> r == Err::<SecurityParameters, CustomError>(CustomError::NotFound),
        r matches Ok(p) ==> exists|k: int| first_primary(rows@, k) && parameters_of(rows@[k], p),
{
    let mut i: usize = 0;
    while i < rows.len()
        invariant
            i <= rows@.len(),
            forall|j: int| 0 <= j < i ==> (#[trigger] rows@[j]).is_primary != 1,
        decreases rows@.len() - i,
    {
        if rows[i].is_primary == 1 {
            let row = &rows[i];
            let p = SecurityParameters {
                board: row.board.clone(),
                market: row.market.clone(),
                engine: row.engine.clone(),
            };
            assert(first_primary(rows@, i as int));
            return Ok(p);
        }
        i += 1;
    }
    Err(CustomError::NotFound)
}

/// What the pagination loop does after a page at `offset` reported `meta`:
/// `None` when the new offset reaches the reported total, the new offset when it
/// does not, and an error when it does not and the page size would not move it
/// forward (a page size of zero or less).
pub open spec fn next_offset(offset: int, meta: HistoryCursor) -> Result<Option<int>, CustomError> {
    let next = offset + meta.page_size;
    if next >= meta.total {
        Ok(None)
    } else if meta.page_size <= 0 {
        Err(CustomError::OriginMalformed)
    } else {
        Ok(Some(next))
    }
}

pub fn advance_offset(offset: i64, meta: &HistoryCursor) -> (r: Result<Option<i64>, CustomError>)
    requires
        offset >= 0,
    ensures
        r matches Ok(Some(n)) ==> next_offset(offset as int, *meta) == Ok::<Option<int>, CustomError>(Some(n as int)) && n > offset,
        r matches Ok(None) ==> next_offset(offset as int, *meta) == Ok::<Option<int>, CustomError>(None),
        r matches Err(e) ==> next_offset(offset as int, *meta) == Err::<Option<int>, CustomError>(e),
{
    let next: i128 = offset as i128 + meta.page_size as i128;
    if next >= meta.total as i128 {
        Ok(None)
    } else if meta.page_size <= 0 {
        Err(CustomError::OriginMalformed)
    } else {
        Ok(Some(next as i64))
    }
}

/// The first quote row whose first cell is the text `board`.
pub open spec fn quote_row_matches(row: Seq<Cell>, board: Seq<char>) -> bool {
    row.len() > 0 && row[0].text is Some && row[0].text->0@ == board
}

/// The live entry that a matching quote row `[board, last, high, low, volume]`
/// stands for, dated `today`; a zero price or volume means no trading yet.
pub open spec fn quote_row_entry(row: Seq<Cell>, today: Date) -> Result<HistoryEntry, CustomError> {
    if row.len() < 5 {
        Err(CustomError::OriginMalformed)
    } else if price_of(row[1]).is_zero() || price_of(row[2]).is_zero() || price_of(row[3]).is_zero()
        || integer_of(row[4], 0) == 0 {
        Err(CustomError::NoData)
    } else {
        Ok(
            HistoryEntry {
                date: today,
                close: price_of(row[1]),
                high: price_of(row[2]),
                low: price_of(row[3]),
                volume: integer_of(row[4], 0),
                facevalue: 1,
            },
        )
    }
}

/// The outcome of scanning quote rows for `board`: the first matching row
/// decides, and no matching row means the instrument is not found there.
pub open spec fn quote_outcome(rows: Seq<Vec<Cell>>, board: Seq<char>, today: Date) -> Result<
    HistoryEntry,
    CustomError,
>
    decreases rows.len(),
{
    if rows.len() == 0 {
        Err(CustomError::NotFound)
    } else if quote_row_matches(rows[0]@, board) {
        quote_row_entry(rows[0]@, today)
    } else {
        quote_outcome(rows.drop_first(), board, today)
    }
}

fn text_equals(a: &String, b: &String) -> (r: bool)
    ensures
        r == (a@ == b@),
{
    *a == *b
}

/// Builds the live entry for `board` from the rows of a quote response.
pub fn current_price_entry(rows: &Vec<Vec<Cell>>, board: &String, today: Date) -> (r: Result<
    HistoryEntry,
    CustomError,
>)
    ensures
        r == quote_outcome(rows@, board@, today),
{
    let mut i: usize = 0;
    assert(rows@.skip(0) =~= rows@);
    while i < rows.len()
        invariant
            i <= rows@.len(),
            quote_outcome(rows@, board@, today) == quote_outcome(rows@.skip(i as int), board@, today),
        decreases rows@.len() - i,
    {
        let row = &rows[i];
        assert(rows@.skip(i as int)[0] == rows@[i as int]);
        assert(rows@.skip(i as int).drop_first() =~= rows@.skip(i + 1));
        let matches_board = if row.len() > 0 {
            match &row[0].text {
                Some(t) => text_equals(t, board),
                None => false,
            }
        } else {
            false
        };
        if matches_board {
            if row.len() < 5 {
                return Err(CustomError::OriginMalformed);
            }
            let close = cell_price(&row[1]);
            let high = cell_price(&row[2]);
            let low = cell_price(&row[3]);
            let volume = cell_integer(&row[4], 0);
            if close.equals_zero() || high.equals_zero() || low.equals_zero() || volume == 0 {
                return Err(CustomError::NoData);
            }
            return Ok(HistoryEntry { date: today, close, high, low, volume, facevalue: 1 });
        }
        i += 1;
    }
    assert(rows@.skip(i as int).len() == 0);
    Err(CustomError::NotFound)
}

} // verus!
