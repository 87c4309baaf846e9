//! Instants and wall-clock times: reading them from text and placing a time
//! of day next to a known instant.

use chrono::{DateTime, FixedOffset, NaiveTime, TimeZone, Timelike, Utc};
use std::fmt::Write;
use vstd::prelude::*;

verus! {

/// Japan Standard Time runs nine hours ahead of UTC.
pub const JST_OFFSET_SECS: i32 = 32400;

/// The instant that chrono reads from `text` under `format` as a local date
/// and time `offset_secs` east of UTC, given as seconds since the Unix epoch
/// and nanoseconds within the second; `None` where chrono rejects the text.
pub uninterp spec fn datetime_from_text(text: Seq<u8>, offset_secs: int, format: Seq<char>) -> Option<(i64, u32)>;

/// The text that chrono writes under `format` for the UTC instant given by
/// seconds since the Unix epoch and nanoseconds; `None` where chrono cannot
/// represent the instant or refuses the format.
pub uninterp spec fn instant_text(secs: i64, nanos: u32, format: Seq<char>) -> Option<Seq<char>>;

/// The time of day that chrono reads from `text` under `format`, as seconds
/// since midnight and nanoseconds within the second (a leap second shows as
/// a nanosecond count of a billion or more); `None` where chrono rejects the text.
pub uninterp spec fn time_from_text(text: Seq<u8>, format: Seq<char>) -> Option<(u32, u32)>;

/// Calls chrono's `TimeZone::datetime_from_str` on a `FixedOffset` and takes
/// the `timestamp` and the `timestamp_subsec_nanos` of what it returns.
/// Trusted: the result depends on the three arguments alone. Text that is
/// not UTF-8, an offset that chrono refuses and text that does not match the
/// format all give `None`.
#[verifier::external_body]
#[allow(deprecated)]
pub(crate) fn chrono_parse_datetime(text: &[u8], offset_secs: i32, format: &str) -> (r: Option<
    (i64, u32),
>)
    ensures
        r == datetime_from_text(text@, offset_secs as int, format@),
{
    let zone = FixedOffset::east_opt(offset_secs)?;
    let s = std::str::from_utf8(text).ok()?;
    zone.datetime_from_str(s, format).ok().map(|dt| (dt.timestamp(), dt.timestamp_subsec_nanos()))
}

/// Builds the instant with chrono's `DateTime::from_timestamp` and writes it
/// with `DateTime::format`. Trusted: the result depends on the three
/// arguments alone.
#[verifier::external_body]
pub(crate) fn chrono_format_utc(secs: i64, nanos: u32, format: &str) -> (r: Option<String>)
    ensures
        match r {
            Some(s) => instant_text(secs, nanos, format@) == Some(s@),
            None => instant_text(secs, nanos, format@) is None,
        },
{
    let instant: DateTime<Utc> = DateTime::from_timestamp(secs, nanos)?;
    let mut out = String::new();
    write!(out, "{}", instant.format(format)).ok()?;
    Some(out)
}

/// Calls chrono's `NaiveTime::parse_from_str` and hands out the seconds since
/// midnight and the nanoseconds of what it returns. Trusted: the result
/// depends on the two arguments alone.
#[verifier::external_body]
pub(crate) fn chrono_parse_time(text: &[u8], format: &str) -> (r: Option<(u32, u32)>)
    ensures
        r == time_from_text(text@, format@),
{
    let s = std::str::from_utf8(text).ok()?;
    NaiveTime::parse_from_str(s, format).ok().map(|t| (t.num_seconds_from_midnight(), t.nanosecond()))
}

/// The second of the day, in Japan Standard Time, on which the instant `t` falls.
pub open spec fn jst_second_of_day(t: i64) -> int {
    (t + 32400) % 86400
}

pub fn second_of_day_jst(t: i64) -> (r: u32)
    ensures
        r == jst_second_of_day(t),
{
    let shifted: i128 = t as i128 + 32400;
    let m: i128 = if shifted >= 0 {
        shifted % 86400
    } else {
        86399 - ((-(shifted + 1)) % 86400)
    };
    m as u32
}

/// How many seconds after `base` a wave arrives whose arrival was announced
/// as a time of day: the difference of the two times of day in Japan
/// Standard Time where it lies within two hours either way, and otherwise
/// that difference moved by a day towards `base`.
pub open spec fn arrival_offset(base: i64, secs: u32, nanos: u32) -> int {
    let base_t = jst_second_of_day(base);
    let borrow: int = if (secs as int) < base_t && nanos >= 1_000_000_000 {
        1
    } else {
        0
    };
    let diff = secs as int - base_t - borrow + nanos as int / 1_000_000_000;
    let rest = nanos as int % 1_000_000_000;
    if diff < -7200 {
        diff + 86400
    } else if diff > 7200 || (diff == 7200 && rest > 0) {
        diff - 86400
    } else {
        diff
    }
}

pub open spec fn spec_resolve_arrival_time(base: i64, secs: u32, nanos: u32) -> Option<i64> {
    let t = base + arrival_offset(base, secs, nanos);
    if i64::MIN <= t <= i64::MAX {
        Some(t as i64)
    } else {
        None
    }
}

/// The instant near `base` at which the clock in Japan shows the time of
/// day given by `secs` and `nanos`; `None` where that instant cannot be
/// represented.
pub fn resolve_arrival_time(base: i64, secs: u32, nanos: u32) -> (r: Option<i64>)
    ensures
        r == spec_resolve_arrival_time(base, secs, nanos),
{
    let base_t: i128 = second_of_day_jst(base) as i128;
    let s: i128 = secs as i128;
    let borrow: i128 = if s < base_t && nanos >= 1_000_000_000 {
        1
    } else {
        0
    };
    let diff: i128 = s - base_t - borrow + (nanos / 1_000_000_000) as i128;
    let rest: u32 = nanos % 1_000_000_000;
    let offset: i128 = if diff < -7200 {
        diff + 86400
    } else if diff > 7200 || (diff == 7200 && rest > 0) {
        diff - 86400
    } else {
        diff
    };
    let t: i128 = base as i128 + offset;
    if t < i64::MIN as i128 || t > i64::MAX as i128 {
        None
    } else {
        Some(t as i64)
    }
}

} // verus!
