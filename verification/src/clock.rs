//! The wall clock. Timestamps are carried as `chrono::NaiveDateTime` values. The
//! library stores, copies and compares them, and looks at nothing of one but
//! the day on which it falls.

use vstd::prelude::*;
use chrono::NaiveDateTime;

verus! {

/// `chrono::NaiveDateTime`, a calendar date and time of day without a time zone.
#[verifier::external_type_specification]
#[verifier::external_body]
pub struct ExNaiveDateTime(chrono::NaiveDateTime);

/// `NaiveDateTime` is `Copy`: its `clone` returns the same date and time.
pub assume_specification[ <chrono::NaiveDateTime as Clone>::clone ](
    t: &NaiveDateTime,
) -> (r: NaiveDateTime)
    ensures
        r == *t,
;

/// Reads the local wall clock through `chrono::Local::now` and drops the time
/// zone with `DateTime::naive_local`. Nothing is claimed of the value: it is
/// whatever the machine's clock says at the moment of the call.
#[verifier::external_body]
pub(crate) fn now() -> NaiveDateTime {
    chrono::Local::now().naive_local()
}

/// The day on which a timestamp falls, counted in days of the proleptic
/// Gregorian calendar with the first of January of the year 1 as day 1. Two
/// timestamps have the same number exactly when they fall on the same date.
pub uninterp spec fn day_of(t: NaiveDateTime) -> i32;

/// The day on which `t` falls: `NaiveDateTime::date` takes the date of the
/// timestamp and `Datelike::num_days_from_ce` counts its days.
#[verifier::external_body]
pub(crate) fn day_number(t: &NaiveDateTime) -> (day: i32)
    ensures
        day == day_of(*t),
{
    chrono::Datelike::num_days_from_ce(&t.date())
}

} // verus!
