use vstd::prelude::*;

verus! {

/// A calendar date, held as year, month (1 to 12) and day of month.
#[derive(Clone, Copy, Debug, PartialEq, Eq, Structural)]
pub struct Date {
    pub year: i32,
    pub month: u32,
    pub day: u32,
}

pub open spec fn is_leap_year(y: int) -> bool {
    (y % 4 == 0 && y % 100 != 0) || y % 400 == 0
}

pub open spec fn days_in_month(y: int, m: int) -> int {
    if m == 2 {
        if is_leap_year(y) { 29 } else { 28 }
    } else if m == 4 || m == 6 || m == 9 || m == 11 {
        30
    } else {
        31
    }
}

impl Date {
    /// The date exists on the proleptic Gregorian calendar.
    pub open spec fn wf(self) -> bool {
        &&& 1 <= self.month <= 12
        &&& 1 <= self.day <= days_in_month(self.year as int, self.month as int)
    }

    /// 1 January 1970, the date that stands in for one that cannot be read.
    pub open spec fn epoch() -> Date {
        Date { year: 1970, month: 1, day: 1 }
    }

    pub fn unix_epoch() -> (r: Date)
        ensures
            r == Date::epoch(),
    {
        Date { year: 1970, month: 1, day: 1 }
    }

    /// Strictly earlier on the calendar.
    pub open spec fn before(self, other: Date) -> bool {
        ||| self.year < other.year
        ||| (self.year == other.year && self.month < other.month)
        ||| (self.year == other.year && self.month == other.month && self.day < other.day)
    }
}

/// A price, held as the IEEE-754 bit pattern of a double.
#[derive(Clone, Copy, Debug, PartialEq, Eq, Structural)]
pub struct Price {
    pub bits: u64,
}

pub const SIGN_BIT: u64 = 0x8000_0000_0000_0000;

impl Price {
    /// The double is `0.0` or `-0.0`, the only patterns that compare equal to zero.
    pub open spec fn is_zero(self) -> bool {
        self.bits == 0 || self.bits == SIGN_BIT
    }

    pub fn zero() -> (r: Price)
        ensures
            r.bits == 0,
    {
        Price { bits: 0 }
    }

    pub fn from_bits(bits: u64) -> (r: Price)
        ensures
            r.bits == bits,
    {
        Price { bits }
    }

    pub fn equals_zero(&self) -> (r: bool)
        ensures
            r == self.is_zero(),
    {
        self.bits == 0 || self.bits == SIGN_BIT
    }
}

/// One trading session: closing, highest and lowest price, traded volume and face value.
#[derive(Clone, Copy, Debug, PartialEq, Eq, Structural)]
pub struct HistoryEntry {
    pub date: Date,
    pub close: Price,
    pub high: Price,
    pub low: Price,
    pub volume: i64,
    pub facevalue: i64,
}

/// Pagination state reported with a history page.
#[derive(Clone, Copy, Debug, PartialEq, Eq, Structural)]
pub struct HistoryCursor {
    pub offset: i64,
    pub total: i64,
    pub page_size: i64,
}

/// One page of history with its cursor: the unit that the cache stores.
#[derive(Clone, Debug)]
pub struct CachedHistoryPage {
    pub history: Vec<HistoryEntry>,
    pub meta: HistoryCursor,
}

/// The board, market and engine under which an instrument is addressed.
#[derive(Clone, Debug)]
pub struct SecurityParameters {
    pub board: String,
    pub market: String,
    pub engine: String,
}

impl SecurityParameters {
    pub open spec fn same(self, other: SecurityParameters) -> bool {
        &&& self.board@ == other.board@
        &&& self.market@ == other.market@
        &&& self.engine@ == other.engine@
    }
}

/// Why a history could not be produced.
#[derive(Clone, Copy, Debug, PartialEq, Eq, Structural)]
pub enum CustomError {
    /// No primary board for the instrument, or no quote row for its board.
    NotFound,
    /// The quote row for the board has a zero price or volume: no trading yet today.
    NoData,
    /// The origin or the cache store could not be reached.
    OriginUnreachable,
    /// A response or a cached value does not have the expected shape.
    OriginMalformed,
}

impl CustomError {
    /// A short description of the error.
    pub fn message(&self) -> (r: &'static str)
        ensures
            *self == CustomError::NotFound ==> r@ == "Not found"@,
            *self == CustomError::NoData ==> r@ == "No data"@,
            *self == CustomError::OriginUnreachable ==> r@ == "Origin unreachable"@,
            *self == CustomError::OriginMalformed ==> r@ == "Origin response malformed"@,
    {
        match self {
            CustomError::NotFound => "Not found",
            CustomError::NoData => "No data",
            CustomError::OriginUnreachable => "Origin unreachable",
            CustomError::OriginMalformed => "Origin response malformed",
        }
    }
}

} // verus!
