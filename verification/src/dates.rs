//! Days of the calendar, and how they are read from text.

use vstd::prelude::*;
use chrono::Datelike;
use crate::error::PosError;

verus! {

/// A day of the calendar.
#[derive(Debug, Clone, Copy, PartialEq, Eq, Structural)]
pub struct CalendarDay {
    pub year: i32,
    pub month: u32,
    pub day: u32,
}

/// The day that `chrono` reads from `text` under the format `%Y-%m-%d`, if it
/// reads one: a year, a month and a day of the month that exist together.
pub uninterp spec fn chrono_day(text: Seq<char>) -> Option<CalendarDay>;

/// Reads a day with `chrono::NaiveDate::parse_from_str` under the format
/// `%Y-%m-%d` and takes its year, month and day of the month. What is read
/// depends on the text alone. The month of a day read is between one and
/// twelve and the day of the month between one and thirty-one.
#[verifier::external_body]
pub(crate) fn parse_day(text: &str) -> (day: Option<CalendarDay>)
    ensures
        day == chrono_day(text@),
        day matches Some(d) ==> 1 <= d.month <= 12 && 1 <= d.day <= 31,
{
    chrono::NaiveDate::parse_from_str(text, "%Y-%m-%d").ok().map(
        |d| CalendarDay { year: d.year(), month: d.month(), day: d.day() },
    )
}

/// The first and the last day of a range of days, read from two texts. The
/// range is refused with `InvalidFromDate` if the first text is not a day,
/// and otherwise with `InvalidToDate` if the second is not.
pub fn range_days(from_day: Option<CalendarDay>, to_day: Option<CalendarDay>) -> (range: Result<
    (CalendarDay, CalendarDay),
    PosError,
>)
    ensures
        range == (match from_day {
            None => Err::<(CalendarDay, CalendarDay), PosError>(PosError::InvalidFromDate),
            Some(from) => match to_day {
                None => Err::<(CalendarDay, CalendarDay), PosError>(PosError::InvalidToDate),
                Some(to) => Ok::<(CalendarDay, CalendarDay), PosError>((from, to)),
            },
        }),
{
    match from_day {
        None => Err(PosError::InvalidFromDate),
        Some(from) => match to_day {
            None => Err(PosError::InvalidToDate),
            Some(to) => Ok((from, to)),
        },
    }
}

/// The first and the last day of the range that `from_date` and `to_date`
/// name, each written as year, month and day. The range is refused with
/// `InvalidFromDate` if the first is not a day, and otherwise with
/// `InvalidToDate` if the second is not.
pub fn range_bounds(from_date: &str, to_date: &str) -> (range: Result<
    (CalendarDay, CalendarDay),
    PosError,
>)
    ensures
        range == (match chrono_day(from_date@) {
            None => Err::<(CalendarDay, CalendarDay), PosError>(PosError::InvalidFromDate),
            Some(from) => match chrono_day(to_date@) {
                None => Err::<(CalendarDay, CalendarDay), PosError>(PosError::InvalidToDate),
                Some(to) => Ok::<(CalendarDay, CalendarDay), PosError>((from, to)),
            },
        }),
{
    let from_day = parse_day(from_date);
    if from_day.is_none() {
        return Err(PosError::InvalidFromDate);
    }
    range_days(from_day, parse_day(to_date))
}

} // verus!
