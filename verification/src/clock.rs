//! Calendar fields out of a `chrono` timestamp.
//!
//! The time source hands over a `chrono::NaiveDateTime` in local time. Its
//! accessors are the only calls into `chrono`; each stands behind a small
//! function whose contract repeats the range that `chrono` documents.

use vstd::prelude::*;
use chrono::{Datelike, NaiveDateTime, Timelike};
use crate::codec::CalendarFields;

verus! {

/// `chrono::NaiveDateTime`, a date and a time of day without a time zone.
/// Nothing inside it is visible here.
#[verifier::external_type_specification]
#[verifier::external_body]
pub struct ExNaiveDateTime(chrono::NaiveDateTime);

/// `chrono::Datelike::year` of a `NaiveDateTime`: the year number of the
/// calendar date. `chrono` allows years before the year zero, so nothing is
/// claimed of the number.
#[verifier::external_body]
fn year_of(moment: &NaiveDateTime) -> (year: i32) {
    moment.year()
}

/// `chrono::Datelike::month` of a `NaiveDateTime`: the month number, which
/// `chrono` documents to range from 1 to 12.
#[verifier::external_body]
fn month_of(moment: &NaiveDateTime) -> (month: u32)
    ensures
        1 <= month <= 12,
{
    moment.month()
}

/// `chrono::Datelike::day` of a `NaiveDateTime`: the day of the month, which
/// `chrono` documents to range from 1 to 31.
#[verifier::external_body]
fn day_of(moment: &NaiveDateTime) -> (day: u32)
    ensures
        1 <= day <= 31,
{
    moment.day()
}

/// `chrono::Timelike::hour` of a `NaiveDateTime`: the hour number, which
/// `chrono` documents to range from 0 to 23.
#[verifier::external_body]
fn hour_of(moment: &NaiveDateTime) -> (hour: u32)
    ensures
        hour <= 23,
{
    moment.hour()
}

/// `chrono::Timelike::minute` of a `NaiveDateTime`: the minute number, which
/// `chrono` documents to range from 0 to 59.
#[verifier::external_body]
fn minute_of(moment: &NaiveDateTime) -> (minute: u32)
    ensures
        minute <= 59,
{
    moment.minute()
}

/// `chrono::Timelike::second` of a `NaiveDateTime`: the second number, which
/// `chrono` documents to range from 0 to 59. A leap second shows in the
/// nanoseconds, not here.
#[verifier::external_body]
fn second_of(moment: &NaiveDateTime) -> (second: u32)
    ensures
        second <= 59,
{
    moment.second()
}

/// Reads the six calendar fields of a timestamp.
///
/// Month, day, hour, minute and second are within their calendar ranges. The
/// year is whatever the timestamp holds; the fields are encodable whenever it
/// is not negative.
pub fn calendar_fields_of(moment: &NaiveDateTime) -> (fields: CalendarFields)
    ensures
        1 <= fields.month <= 12,
        1 <= fields.day <= 31,
        fields.hour <= 23,
        fields.minute <= 59,
        fields.second <= 59,
        fields.year >= 0 ==> fields.valid() && fields.encodable(),
        fields.encodable() <==> fields.valid(),
{
    CalendarFields {
        year: year_of(moment),
        month: month_of(moment),
        day: day_of(moment),
        hour: hour_of(moment),
        minute: minute_of(moment),
        second: second_of(moment),
    }
}

} // verus!
