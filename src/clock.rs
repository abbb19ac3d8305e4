//! Local date-times as plain values, and the calls into chrono that parse
//! them, read the clock and measure the time between two of them.

use chrono::{Datelike, Local, NaiveDate, NaiveDateTime, Timelike};
use vstd::prelude::*;

verus! {

/// The earliest year that chrono can represent.
pub const MIN_YEAR: i32 = -262143;

/// The latest year that chrono can represent.
pub const MAX_YEAR: i32 = 262142;

/// A local date and time without a time zone, to the nanosecond.
#[derive(Clone, Copy, Debug, PartialEq, Eq)]
pub struct LocalDateTime {
    pub year: i32,
    pub month: u32,
    pub day: u32,
    pub hour: u32,
    pub minute: u32,
    pub second: u32,
    pub nanosecond: u32,
}

pub open spec fn is_leap_year(y: int) -> bool {
    (y % 4 == 0 && y % 100 != 0) || y % 400 == 0
}

pub open spec fn days_in_month(y: int, m: int) -> int {
    if m == 2 {
        if is_leap_year(y) { 29 } else { 28 }
    } else if m == 4 || m == 6 || m == 9 || m == 11 {
        30
    } else {
        31
    }
}

impl LocalDateTime {
    /// The fields as a tuple of integers: year, month, day, hour, minute,
    /// second, nanosecond.
    pub open spec fn fields(&self) -> (int, int, int, int, int, int, int) {
        (
            self.year as int,
            self.month as int,
            self.day as int,
            self.hour as int,
            self.minute as int,
            self.second as int,
            self.nanosecond as int,
        )
    }

    /// A date-time that chrono can represent: a real calendar day within
    /// chrono's years, and a time of day (a leap second is a nanosecond
    /// count of a second or more in the 59th second).
    pub open spec fn wf(&self) -> bool {
        &&& MIN_YEAR <= self.year <= MAX_YEAR
        &&& 1 <= self.month <= 12
        &&& 1 <= self.day <= days_in_month(self.year as int, self.month as int)
        &&& self.hour < 24
        &&& self.minute < 60
        &&& self.second < 60
        &&& self.nanosecond < 2_000_000_000
        &&& (self.nanosecond >= 1_000_000_000 ==> self.second == 59)
    }
}

/// What chrono's `NaiveDateTime::parse_from_str` makes of a text under a
/// format, as the fields of `LocalDateTime::fields`.
pub uninterp spec fn parsed_date_time(s: Seq<char>, fmt: Seq<char>) -> Option<(int, int, int, int, int, int, int)>;

/// The whole seconds from `earlier` to `later` that chrono's
/// `NaiveDateTime::signed_duration_since` and `TimeDelta::num_seconds` give.
pub uninterp spec fn whole_seconds_between(later: (int, int, int, int, int, int, int), earlier: (int, int, int, int, int, int, int)) -> int;

/// Relies on `chrono::NaiveDateTime::parse_from_str`: it fails or gives a
/// valid date-time, which depends on the text and the format alone.
#[verifier::external_body]
pub(crate) fn parse_date_time(s: &str, fmt: &str) -> (r: Option<LocalDateTime>)
    ensures
        r is Some <==> parsed_date_time(s@, fmt@) is Some,
        r matches Some(t) ==> t.wf() && parsed_date_time(s@, fmt@) == Some(t.fields()),
{
    match NaiveDateTime::parse_from_str(s, fmt) {
        Ok(t) => Some(LocalDateTime {
            year: t.year(),
            month: t.month(),
            day: t.day(),
            hour: t.hour(),
            minute: t.minute(),
            second: t.second(),
            nanosecond: t.nanosecond(),
        }),
        Err(_) => None,
    }
}

/// Relies on `chrono::Local::now` and `DateTime::naive_local`: the current
/// local date-time, which is always valid.
#[verifier::external_body]
pub(crate) fn local_now() -> (r: LocalDateTime)
    ensures
        r.wf(),
{
    let t = Local::now().naive_local();
    LocalDateTime {
        year: t.year(),
        month: t.month(),
        day: t.day(),
        hour: t.hour(),
        minute: t.minute(),
        second: t.second(),
        nanosecond: t.nanosecond(),
    }
}

/// Relies on `chrono::NaiveDateTime::signed_duration_since` and
/// `TimeDelta::num_seconds`: the whole seconds from `earlier` to `later`,
/// which depend on the two date-times alone. chrono builds both from their
/// fields, which it does for every well-formed value.
#[verifier::external_body]
pub(crate) fn seconds_between(later: &LocalDateTime, earlier: &LocalDateTime) -> (r: i64)
    requires
        later.wf(),
        earlier.wf(),
    ensures
        r as int == whole_seconds_between(later.fields(), earlier.fields()),
{
    let a = NaiveDate::from_ymd_opt(later.year, later.month, later.day).unwrap()
        .and_hms_nano_opt(later.hour, later.minute, later.second, later.nanosecond).unwrap();
    let b = NaiveDate::from_ymd_opt(earlier.year, earlier.month, earlier.day).unwrap()
        .and_hms_nano_opt(earlier.hour, earlier.minute, earlier.second, earlier.nanosecond).unwrap();
    a.signed_duration_since(b).num_seconds()
}

} // verus!
