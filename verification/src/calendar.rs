//! The calendar itself: today's date, the day of the week, and counting days
//! back. The arithmetic of the Gregorian calendar is left to `chrono`; this
//! module hands it plain numbers and takes plain numbers back.

use crate::date::{ClockTime, Date, Weekday};
use chrono::{Datelike, Timelike};
use vstd::prelude::*;

verus! {

/// A date together with a time of day.
#[derive(Clone, Copy, Debug, PartialEq, Eq, Structural)]
pub struct Moment {
    pub date: Date,
    pub time: ClockTime,
}

/// The day of the week on which `date` falls; `None` when the calendar has no
/// such date.
pub uninterp spec fn weekday_of(date: Date) -> Option<Weekday>;

/// The date `days` days before `date`; `None` when the calendar has no such
/// date, or cannot represent the earlier one.
pub uninterp spec fn date_before(date: Date, days: int) -> Option<Date>;

/// The local date and time at the moment of the call.
///
/// Trusted: reads `chrono::Local::now`. Nothing is said of which moment comes
/// back, only that its fields lie in the ranges that `Datelike` and
/// `Timelike` document: months from 1 to 12, days from 1 to 31, hours from 0
/// to 23 and minutes from 0 to 59.
#[verifier::external_body]
pub(crate) fn local_now() -> (now: Moment)
    ensures
        1 <= now.date.month <= 12,
        1 <= now.date.day <= 31,
        now.time.hour <= 23,
        now.time.minute <= 59,
{
    let now = chrono::Local::now();
    Moment {
        date: Date { year: now.year(), month: now.month(), day: now.day() },
        time: ClockTime { hour: now.hour(), minute: now.minute() },
    }
}

/// The day of the week on which `date` falls.
///
/// Trusted: builds the date with `chrono::NaiveDate::from_ymd_opt`, which
/// refuses a date that does not exist, and asks `Datelike::weekday`. The
/// result depends on the date alone.
#[verifier::external_body]
pub(crate) fn weekday_on(date: Date) -> (day: Option<Weekday>)
    ensures
        day == weekday_of(date),
{
    let d = chrono::NaiveDate::from_ymd_opt(date.year, date.month, date.day)?;
    Some(
        match d.weekday() {
            chrono::Weekday::Mon => Weekday::Mon,
            chrono::Weekday::Tue => Weekday::Tue,
            chrono::Weekday::Wed => Weekday::Wed,
            chrono::Weekday::Thu => Weekday::Thu,
            chrono::Weekday::Fri => Weekday::Fri,
            chrono::Weekday::Sat => Weekday::Sat,
            chrono::Weekday::Sun => Weekday::Sun,
        },
    )
}

/// The date `days` days before `date`.
///
/// Trusted: builds the date with `chrono::NaiveDate::from_ymd_opt` and
/// subtracts with `NaiveDate::checked_sub_days`, which gives `None` when the
/// result would be out of range. The result depends on the arguments alone.
#[verifier::external_body]
pub(crate) fn days_before(date: Date, days: u32) -> (earlier: Option<Date>)
    ensures
        earlier == date_before(date, days as int),
{
    let start = chrono::NaiveDate::from_ymd_opt(date.year, date.month, date.day)?;
    let d = start.checked_sub_days(chrono::Days::new(days as u64))?;
    Some(Date { year: d.year(), month: d.month(), day: d.day() })
}

} // verus!
