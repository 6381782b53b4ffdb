//! Stock-history rows.

use crate::calendar::CalendarDate;
use vstd::prelude::*;

verus! {

/// One trading day of one ticker. The prices are exact decimals, held in
/// the text form in which they are serialized.
#[derive(Clone, Debug, PartialEq, Eq)]
pub struct StockHistoryRow {
    pub date: CalendarDate,
    pub ticker: String,
    pub open: String,
    pub high: String,
    pub low: String,
    pub close: String,
    pub volume: u64,
}

/// A row as the database hands it over: the date, and the other columns
/// fetched as text so that the numbers keep their precision.
#[derive(Clone, Debug, PartialEq, Eq)]
pub struct RawStockHistoryRow {
    pub date: CalendarDate,
    pub ticker: String,
    pub open: String,
    pub high: String,
    pub low: String,
    pub close: String,
    pub volume: String,
}

} // verus!
