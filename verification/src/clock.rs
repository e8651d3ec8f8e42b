use vstd::prelude::*;

use chrono::{Datelike, Timelike};

use crate::text::decimal;

verus! {

/// A local date and time, as read from the clock.
#[derive(Debug, Clone, Copy, PartialEq, Eq)]
pub struct Moment {
    pub year: i32,
    pub month: u32,
    pub day: u32,
    pub hour: u32,
    pub minute: u32,
    pub second: u32,
}

/// A proleptic Gregorian leap year.
pub open spec fn is_leap_year(year: int) -> bool {
    year % 4 == 0 && (year % 100 != 0 || year % 400 == 0)
}

/// The number of days of a month.
pub open spec fn days_in_month(year: int, month: int) -> int {
    if month == 2 {
        if is_leap_year(year) {
            29
        } else {
            28
        }
    } else if month == 4 || month == 6 || month == 9 || month == 11 {
        30
    } else {
        31
    }
}

/// `m` is a date and time chrono represents: a year from -262143 to 262142 (chrono's
/// `MIN_YEAR` and `MAX_YEAR`), a day of the calendar and a time of day without leap
/// second.
pub open spec fn valid_moment(m: Moment) -> bool {
    &&& -262143 <= m.year <= 262142
    &&& 1 <= m.month <= 12
    &&& 1 <= m.day <= days_in_month(m.year as int, m.month as int)
    &&& m.hour < 24
    &&& m.minute < 60
    &&& m.second < 60
}

/// The decimal digits of `n`, zero-padded to at least `width` digits.
pub open spec fn padded(n: nat, width: nat) -> Seq<char> {
    let d = decimal(n);
    if d.len() < width {
        Seq::new((width - d.len()) as nat, |i: int| '0') + d
    } else {
        d
    }
}

/// The year as chrono's "%Y" writes it: four digits or more, zero-padded, with a sign
/// before years outside 0 to 9999.
pub open spec fn year_text(year: int) -> Seq<char> {
    if 0 <= year <= 9999 {
        padded(year as nat, 4)
    } else if year < 0 {
        seq!['-'] + padded((-year) as nat, 4)
    } else {
        seq!['+'] + padded(year as nat, 4)
    }
}

/// The time stamp that names a new memo, as chrono writes `m` with "%Y%m%d%H%M%S":
/// the year, then month, day, hour, minute and second in two digits each.
pub open spec fn stamp_of(m: Moment) -> Seq<char> {
    year_text(m.year as int) + padded(m.month as nat, 2) + padded(m.day as nat, 2) + padded(
        m.hour as nat,
        2,
    ) + padded(m.minute as nat, 2) + padded(m.second as nat, 2)
}

/// Builds the date-time with chrono's `NaiveDate::from_ymd_opt` and
/// `NaiveDate::and_hms_opt`, then renders it with `NaiveDateTime::format` and
/// `to_string`. Claimed, from chrono's documentation and source: the date-time exists
/// exactly for the fields of a calendar date in chrono's year range and a time of day without leap
/// second, and "%Y%m%d%H%M%S" writes the year zero-padded to four digits (signed outside
/// 0 to 9999) and the other fields zero-padded to two digits. The pattern must be that
/// one; chrono parses it, and a pattern chrono rejects would make `to_string` panic.
#[verifier::external_body]
pub(crate) fn chrono_render(pattern: &str, m: &Moment) -> (r: Option<String>)
    requires
        pattern@ == "%Y%m%d%H%M%S"@,
    ensures
        r is Some <==> valid_moment(*m),
        r matches Some(s) ==> s@ == stamp_of(*m),
{
    let date = chrono::NaiveDate::from_ymd_opt(m.year, m.month, m.day)?;
    let date_time = date.and_hms_opt(m.hour, m.minute, m.second)?;
    Some(date_time.format(pattern).to_string())
}

/// The fields of the UTC date and time that chrono's `DateTime::from_timestamp` gives
/// for a count of seconds since 1970-01-01 00:00:00 UTC, or nothing out of its range.
pub uninterp spec fn chrono_utc_fields(secs: int) -> Option<(i32, u32, u32, u32, u32, u32)>;

/// The fields of a moment, in order.
pub open spec fn fields_of(m: Moment) -> (i32, u32, u32, u32, u32, u32) {
    (m.year, m.month, m.day, m.hour, m.minute, m.second)
}

/// Calls chrono's `DateTime::from_timestamp(secs, 0)` and reads year, month, day, hour,
/// minute and second of its `naive_utc` date-time. Claimed: the result is the name
/// `chrono_utc_fields` of the seconds, `None` exactly when chrono refuses them.
#[verifier::external_body]
fn utc_moment(secs: i64) -> (r: Option<Moment>)
    ensures
        r is Some <==> chrono_utc_fields(secs as int) is Some,
        r matches Some(m) ==> chrono_utc_fields(secs as int) == Some(fields_of(m)),
{
    let t = chrono::DateTime::from_timestamp(secs, 0)?.naive_utc();
    Some(Moment {
        year: t.year(),
        month: t.month(),
        day: t.day(),
        hour: t.hour(),
        minute: t.minute(),
        second: t.second(),
    })
}

/// Japan's time offset from UTC, nine hours, in seconds.
pub const JAPAN_OFFSET_SECS: i64 = 32400;

/// The date and time in Japan at `utc_secs` seconds after 1970-01-01 00:00:00 UTC: the
/// UTC date and time nine hours later. `None` when that is out of chrono's range.
pub fn japan_moment(utc_secs: i64) -> (r: Option<Moment>)
    ensures
        utc_secs + JAPAN_OFFSET_SECS > i64::MAX ==> r is None,
        utc_secs + JAPAN_OFFSET_SECS <= i64::MAX ==> {
            &&& (r is Some <==> chrono_utc_fields(utc_secs + JAPAN_OFFSET_SECS) is Some)
            &&& (r matches Some(m) ==> chrono_utc_fields(utc_secs + JAPAN_OFFSET_SECS) == Some(
                fields_of(m),
            ))
        },
{
    match utc_secs.checked_add(JAPAN_OFFSET_SECS) {
        Some(local) => utc_moment(local),
        None => None,
    }
}

/// The time stamp of `m`, or `None` when `m` is no date and time.
pub fn stamp(m: &Moment) -> (r: Option<String>)
    ensures
        r is Some <==> valid_moment(*m),
        r matches Some(s) ==> s@ == stamp_of(*m),
{
    chrono_render("%Y%m%d%H%M%S", m)
}

} // verus!
