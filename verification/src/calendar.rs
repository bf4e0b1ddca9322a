//! Calendar dates and the reference date that an upgrade is measured against.

use chrono::{Datelike, NaiveDate};
use vstd::prelude::*;

verus! {

/// A day as it is written on a calendar: year, month and day of the month.
///
/// Any three numbers can be held. Whether they name a day that can be
/// resolved is decided when the date is turned into a [`ReferenceDate`]: the
/// day has to exist, and its year has to lie within the years that chrono
/// holds, about 262 000 to either side of year 0.
#[derive(Debug, Clone, Copy, PartialEq, Eq)]
pub struct CalendarDate {
    pub year: i32,
    pub month: u32,
    pub day: u32,
}

/// What a migration reads of the current date: the ISO week number and the
/// weekday counted from Monday = 0 to Sunday = 6.
#[derive(Debug, Clone, Copy, PartialEq, Eq)]
pub struct ReferenceDate {
    pub week: u32,
    pub weekday: u32,
}

/// The ISO-8601 week number of the given calendar day, or `None` where no
/// such day exists or its year lies outside the years that chrono holds.
pub uninterp spec fn iso_week_number(year: i32, month: u32, day: u32) -> Option<u32>;

/// The number of days from Monday to the given calendar day's weekday, or
/// `None` where no such day exists or its year lies outside the years that
/// chrono holds.
pub uninterp spec fn days_from_monday(year: i32, month: u32, day: u32) -> Option<u32>;

/// The reference date that a calendar date resolves to.
pub open spec fn reference_date_of(date: CalendarDate) -> Option<ReferenceDate> {
    match (
        iso_week_number(date.year, date.month, date.day),
        days_from_monday(date.year, date.month, date.day),
    ) {
        (Some(week), Some(weekday)) => Some(ReferenceDate { week, weekday }),
        _ => None,
    }
}

impl ReferenceDate {
    /// A reference date produced from a calendar day has a week number from
    /// 1 to 53 and a weekday from 0 to 6.
    pub open spec fn in_calendar_range(self) -> bool {
        1 <= self.week <= 53 && self.weekday <= 6
    }

    /// Resolves a calendar date into its ISO week number and weekday.
    /// Returns `None` where the date does not exist, or where its year lies
    /// outside the years that chrono holds.
    pub fn from_calendar(date: CalendarDate) -> (r: Option<ReferenceDate>)
        ensures
            r == reference_date_of(date),
            r matches Some(today) ==> today.in_calendar_range(),
    {
        let week = iso_week_of(date.year, date.month, date.day);
        let weekday = weekday_of(date.year, date.month, date.day);
        match (week, weekday) {
            (Some(week), Some(weekday)) => Some(ReferenceDate { week, weekday }),
            _ => None,
        }
    }
}

/// Trusted: calls `chrono::NaiveDate::from_ymd_opt` and, on a date that it
/// accepts, `iso_week().week()`. The result is named `iso_week_number`; chrono
/// documents that the week number ranges from 1 to 53.
#[verifier::external_body]
fn iso_week_of(year: i32, month: u32, day: u32) -> (r: Option<u32>)
    ensures
        r == iso_week_number(year, month, day),
        r matches Some(week) ==> 1 <= week <= 53,
{
    match NaiveDate::from_ymd_opt(year, month, day) {
        Some(date) => Some(date.iso_week().week()),
        None => None,
    }
}

/// Trusted: calls `chrono::NaiveDate::from_ymd_opt` and, on a date that it
/// accepts, `weekday().num_days_from_monday()`. The result is named
/// `days_from_monday`; chrono documents Monday = 0 up to Sunday = 6.
#[verifier::external_body]
fn weekday_of(year: i32, month: u32, day: u32) -> (r: Option<u32>)
    ensures
        r == days_from_monday(year, month, day),
        r matches Some(weekday) ==> weekday <= 6,
{
    match NaiveDate::from_ymd_opt(year, month, day) {
        Some(date) => Some(date.weekday().num_days_from_monday()),
        None => None,
    }
}

} // verus!
