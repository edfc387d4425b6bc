//! The wall clock and the calendar.

use std::fmt::Write;
use vstd::prelude::*;
use crate::task::Timestamp;

verus! {

/// The format of the time stamp in the name of a capture file.
pub const FILE_STAMP_FORMAT: &'static str = "%Y%m%d_%H%M%S";

/// Seconds in a day.
pub const SECS_PER_DAY: i64 = 86400;

/// The current time: `std::time::SystemTime::now`, turned into a
/// `chrono::DateTime<Utc>` by chrono's `From<SystemTime>` and taken apart
/// with `DateTime::timestamp` and `DateTime::timestamp_subsec_nanos`. Nothing
/// is claimed of the value: it is whatever the system clock says, before
/// 1970 too. The call does not return where that clock stands outside the
/// years that chrono can hold, some 262,000 to either side of the epoch.
#[verifier::external_body]
pub(crate) fn now_utc() -> Timestamp {
    let now = chrono::DateTime::<chrono::Utc>::from(std::time::SystemTime::now());
    Timestamp { secs: now.timestamp(), nanos: now.timestamp_subsec_nanos() }
}

/// The local time of this moment, written in the format `format` by
/// `chrono::DateTime::format`; the moment is `std::time::SystemTime::now`,
/// turned into a `chrono::DateTime<Local>` by chrono's `From<SystemTime>`.
/// Nothing is claimed of the text: it depends on the clock and on the time
/// zone of the machine, and a format that chrono cannot read gives what was
/// written up to the fault. The call does not return where the clock stands
/// outside the years that chrono can hold.
#[verifier::external_body]
pub(crate) fn local_time_text(format: &str) -> String {
    let now = chrono::DateTime::<chrono::Local>::from(std::time::SystemTime::now());
    let mut text = String::new();
    let _ = write!(text, "{}", now.format(format));
    text
}

/// The seconds since the Unix epoch of the date and time that
/// `chrono::NaiveDateTime::parse_from_str` reads from `text` in the format
/// `format`, taken as UTC; `None` where it reads none.
pub uninterp spec fn naive_datetime_secs(text: Seq<char>, format: Seq<char>) -> Option<i64>;

/// Reads a date and time without zone with
/// `chrono::NaiveDateTime::parse_from_str` and gives it as seconds since the
/// Unix epoch, by `NaiveDateTime::and_utc` and `DateTime::timestamp`. The
/// contract gives the result its name and claims no more.
#[verifier::external_body]
pub(crate) fn parse_naive_datetime(text: &str, format: &str) -> (out: Option<i64>)
    ensures
        out == naive_datetime_secs(text@, format@),
{
    match chrono::NaiveDateTime::parse_from_str(text, format) {
        Ok(dt) => Some(dt.and_utc().timestamp()),
        Err(_) => None,
    }
}

/// The point in time that `chrono::DateTime::parse_from_rfc3339` reads from
/// `text`; `None` where it reads none.
pub uninterp spec fn rfc3339_instant(text: Seq<char>) -> Option<Timestamp>;

/// Reads an RFC 3339 date and time with `chrono::DateTime::parse_from_rfc3339`
/// and takes it apart with `DateTime::timestamp` and
/// `DateTime::timestamp_subsec_nanos`. The contract gives the result its
/// name and claims no more.
#[verifier::external_body]
pub(crate) fn parse_rfc3339(text: &str) -> (out: Option<Timestamp>)
    ensures
        out == rfc3339_instant(text@),
{
    match chrono::DateTime::parse_from_rfc3339(text) {
        Ok(dt) => Some(Timestamp { secs: dt.timestamp(), nanos: dt.timestamp_subsec_nanos() }),
        Err(_) => None,
    }
}

/// `secs` moved by `delta` seconds, as far as an `i64` holds it.
pub open spec fn shifted_secs(secs: i64, delta: int) -> i64 {
    if secs + delta > i64::MAX {
        i64::MAX
    } else if secs + delta < i64::MIN {
        i64::MIN
    } else {
        (secs + delta) as i64
    }
}

/// `t` moved by `delta` seconds.
pub open spec fn shifted(t: Timestamp, delta: int) -> Timestamp {
    Timestamp { secs: shifted_secs(t.secs, delta), nanos: t.nanos }
}

/// `t` moved by `delta` seconds; the result stops at the ends of the range
/// of `i64`.
pub fn shift(t: Timestamp, delta: i64) -> (out: Timestamp)
    ensures
        out == shifted(t, delta as int),
{
    let secs: i64 = if delta >= 0 {
        if t.secs > i64::MAX - delta {
            i64::MAX
        } else {
            t.secs + delta
        }
    } else {
        if t.secs < i64::MIN - delta {
            i64::MIN
        } else {
            t.secs + delta
        }
    };
    Timestamp { secs, nanos: t.nanos }
}

/// The second of its day, in UTC, at which `secs` lies.
pub open spec fn second_of_day(secs: i64) -> int {
    (secs as int) % (SECS_PER_DAY as int)
}

/// The second of its day, in UTC, at which `secs` lies.
pub fn day_second(secs: i64) -> (s: u64)
    ensures
        s == second_of_day(secs),
        s < 86400,
{
    if secs >= 0 {
        (secs % SECS_PER_DAY) as u64
    } else {
        let back: i64 = (-(secs + 1)) % SECS_PER_DAY;
        (SECS_PER_DAY - 1 - back) as u64
    }
}

/// `n` in two decimal digits; numbers of three digits and more keep their
/// last two.
pub open spec fn two_digits(n: int) -> Seq<char> {
    seq![crate::text::digit_of((n / 10) % 10), crate::text::digit_of(n % 10)]
}

/// The time of day of `t` in UTC, as `HH:MM:SS`. In a leap second, where the
/// nanoseconds reach a full second, the seconds read 60.
pub open spec fn clock_time_of(t: Timestamp) -> Seq<char> {
    let s = second_of_day(t.secs);
    two_digits(s / 3600) + seq![':'] + two_digits((s / 60) % 60) + seq![':'] + two_digits(
        s % 60 + (t.nanos as int) / 1_000_000_000,
    )
}

/// The time of day of `t` in UTC, as `HH:MM:SS`.
pub fn clock_time(t: Timestamp) -> (out: Vec<char>)
    ensures
        out@ == clock_time_of(t),
{
    let s: u64 = day_second(t.secs);
    let h: u64 = s / 3600;
    let m: u64 = (s / 60) % 60;
    let sec: u64 = s % 60 + (t.nanos as u64) / 1_000_000_000;
    let mut out: Vec<char> = Vec::new();
    out.push(crate::text::digit((h / 10) % 10));
    out.push(crate::text::digit(h % 10));
    out.push(':');
    out.push(crate::text::digit((m / 10) % 10));
    out.push(crate::text::digit(m % 10));
    out.push(':');
    out.push(crate::text::digit((sec / 10) % 10));
    out.push(crate::text::digit(sec % 10));
    assert(out@ =~= clock_time_of(t));
    out
}

} // verus!
