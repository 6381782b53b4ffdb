//! Calendar dates as plain values, and the reading of AG Grid date filter
//! values through chrono.

use chrono::Datelike;
use crate::text::digit_value;
use crate::text::is_digit;
use vstd::prelude::*;
use vstd::string::StringSliceAdditionalSpecFns;
use vstd::utf8::*;

verus! {

/// A calendar date (proleptic Gregorian), as chrono's `NaiveDate` holds it.
#[derive(Clone, Copy, Debug, PartialEq, Eq, Structural)]
pub struct CalendarDate {
    pub year: i32,
    pub month: u32,
    pub day: u32,
}

/// What `NaiveDate::parse_from_str(text, "%Y-%m-%d")` gives for `text`: the
/// year, month and day of the date read, or the message that the parse
/// error displays.
pub uninterp spec fn ymd_date_from_text(text: Seq<char>) -> Result<(i32, u32, u32), Seq<char>>;

/// True for the leap years of the proleptic Gregorian calendar.
pub open spec fn is_leap_year(year: int) -> bool {
    year % 4 == 0 && (year % 100 != 0 || year % 400 == 0)
}

/// The number of days of a month of the proleptic Gregorian calendar.
pub open spec fn days_in_month(year: int, month: int) -> int {
    if month == 2 {
        if is_leap_year(year) {
            29
        } else {
            28
        }
    } else if month == 4 || month == 6 || month == 9 || month == 11 {
        30
    } else {
        31
    }
}

/// The year written in the first four characters of a plain date.
pub open spec fn plain_year(t: Seq<char>) -> int {
    digit_value(t[0]) * 1000 + digit_value(t[1]) * 100 + digit_value(t[2]) * 10 + digit_value(t[3])
}

/// The month written in characters 5 and 6 of a plain date.
pub open spec fn plain_month(t: Seq<char>) -> int {
    digit_value(t[5]) * 10 + digit_value(t[6])
}

/// The day written in characters 8 and 9 of a plain date.
pub open spec fn plain_day(t: Seq<char>) -> int {
    digit_value(t[8]) * 10 + digit_value(t[9])
}

/// True when `t` is exactly `YYYY-MM-DD` in ASCII digits and names a date
/// that exists.
pub open spec fn is_plain_date(t: Seq<char>) -> bool {
    &&& t.len() == 10
    &&& is_digit(t[0]) && is_digit(t[1]) && is_digit(t[2]) && is_digit(t[3])
    &&& t[4] == '-'
    &&& is_digit(t[5]) && is_digit(t[6])
    &&& t[7] == '-'
    &&& is_digit(t[8]) && is_digit(t[9])
    &&& 1 <= plain_month(t) <= 12
    &&& 1 <= plain_day(t) <= days_in_month(plain_year(t), plain_month(t))
}

/// The year, month and day that a plain date names.
pub open spec fn plain_ymd(t: Seq<char>) -> (i32, u32, u32) {
    (plain_year(t) as i32, plain_month(t) as u32, plain_day(t) as u32)
}

/// What chrono reads from `text` with the format `%Y-%m-%d`: a plain
/// `YYYY-MM-DD` date that exists reads as itself; for any other text the
/// result is given by the name `ymd_date_from_text`.
pub open spec fn date_from_text(text: Seq<char>) -> Result<(i32, u32, u32), Seq<char>> {
    if is_plain_date(text) {
        Ok(plain_ymd(text))
    } else {
        ymd_date_from_text(text)
    }
}

/// Calls chrono's `NaiveDate::parse_from_str` with the format `%Y-%m-%d`.
/// The contract ties the result to the name `ymd_date_from_text`: the year,
/// month and day of the parsed date, or the text that chrono's `ParseError`
/// displays. It also states the case that chrono's source settles in a few
/// lines: exactly `YYYY-MM-DD` in ASCII digits, naming a date that exists
/// (years 0 to 9999 lie within `NaiveDate`'s range), reads as that date.
/// chrono's grammar for other texts (whitespace, signs, shorter fields) is
/// not written out here.
#[verifier::external_body]
pub(crate) fn parse_ymd_date(text: &str) -> (res: Result<(i32, u32, u32), String>)
    ensures
        match res {
            Ok(ymd) => ymd_date_from_text(text@) == Ok::<(i32, u32, u32), Seq<char>>(ymd),
            Err(msg) => ymd_date_from_text(text@) == Err::<(i32, u32, u32), Seq<char>>(msg@),
        },
        is_plain_date(text@) ==> res is Ok && res->Ok_0 == plain_ymd(text@),
{
    match chrono::NaiveDate::parse_from_str(text, "%Y-%m-%d") {
        Ok(d) => Ok((d.year(), d.month(), d.day())),
        Err(e) => Err(e.to_string()),
    }
}

/// The part of an AG Grid date value that is read as a date: its first ten
/// bytes when a character ends there (`value.get(..10)`), else the whole value.
pub open spec fn ag_grid_date_text(value: Seq<char>) -> Seq<char> {
    let bytes = encode_utf8(value);
    if is_char_boundary(bytes, 10) {
        decode_utf8(bytes.take(10))
    } else {
        value
    }
}

/// The date part of an AG Grid date value (`"2024-01-15 00:00:00"` gives
/// `"2024-01-15"`): `value.get(..10).unwrap_or(value)`.
pub fn ag_grid_date_part(value: &str) -> (res: &str)
    ensures
        res@ == ag_grid_date_text(value@),
{
    proof {
        encode_utf8_valid_utf8(value@);
    }
    if value.is_char_boundary(10) {
        let (head, _tail) = value.split_at(10);
        proof {
            encode_utf8_decode_utf8(head@);
            assert(value.spec_bytes().subrange(0, 10) =~= value.spec_bytes().take(10));
        }
        head
    } else {
        value
    }
}

} // verus!
