//! Directory timestamps and time spans.

use crate::text::{before_first, chars_of, position_of, push_str, string_of, string_of_range};
use crate::utils::format::{decimal, push_decimal};
use chrono::NaiveDateTime;
use vstd::prelude::*;

verus! {

/// Seconds between 1601-01-01 and 1970-01-01.
pub const EPOCH_OFFSET: i64 = 11644473600;

/// Directory timestamps count intervals of 100 nanoseconds.
pub const TICKS_PER_SECOND: i64 = 10000000;

/// Division that rounds toward zero, as machine integers divide.
pub open spec fn div_toward_zero(a: int, b: int) -> int
    recommends
        b > 0,
{
    if a >= 0 {
        a / b
    } else {
        -((-a) / b)
    }
}

/// The Unix time of a directory timestamp.
pub open spec fn spec_convert_timestamp(timestamp: int) -> int {
    div_toward_zero(timestamp, TICKS_PER_SECOND as int) - EPOCH_OFFSET
}

/// Converts a directory timestamp (100 ns intervals since 1601) to Unix time
/// in seconds.
pub fn convert_timestamp(timestamp: i64) -> (epoch: i64)
    ensures
        epoch == spec_convert_timestamp(timestamp as int),
{
    let seconds: i64 = if timestamp >= 0 {
        timestamp / TICKS_PER_SECOND
    } else if timestamp == i64::MIN {
        -922337203685
    } else {
        -((-timestamp) / TICKS_PER_SECOND)
    };
    seconds - EPOCH_OFFSET
}

/// What `chrono::NaiveDateTime::parse_from_str` reads from a text with the
/// format `%Y%m%d%H%M%S`, as seconds since the Unix epoch in UTC; `None` where
/// it rejects the text.
pub uninterp spec fn spec_parse_compact_datetime(s: Seq<char>) -> Option<i64>;

/// Calls `chrono::NaiveDateTime::parse_from_str` with the format
/// `%Y%m%d%H%M%S` and reads the result as UTC seconds. The contract only names
/// the result: nothing is claimed about which texts are accepted.
#[verifier::external_body]
fn parse_compact_datetime(s: &str) -> (r: Option<i64>)
    ensures
        r == spec_parse_compact_datetime(s@),
{
    match NaiveDateTime::parse_from_str(s, "%Y%m%d%H%M%S") {
        Ok(t) => Some(t.and_utc().timestamp()),
        Err(_) => None,
    }
}

/// The Unix time of a generalized-time text such as `20230101120000.0Z`: the
/// part before the first dot is read as `yyyyMMddHHmmss`.
pub open spec fn spec_string_to_epoch(date: Seq<char>) -> Option<i64> {
    spec_parse_compact_datetime(before_first(date, '.'))
}

/// Reads a generalized-time text; `None` when the part before the first dot is
/// not a timestamp.
pub fn string_to_epoch(date: &str) -> (r: Option<i64>)
    ensures
        r == spec_string_to_epoch(date@),
{
    let d = chars_of(date);
    let p = position_of(&d, '.', 0);
    let head = string_of_range(&d, 0, p);
    assert(d@.subrange(0, p as int) =~= d@.take(p as int));
    parse_compact_datetime(head.as_str())
}

/// The unsigned value of 8 little-endian bytes.
pub open spec fn le_u64(b: Seq<u8>) -> int
    recommends
        b.len() >= 8,
{
    b[0] as int + b[1] as int * 0x100 + b[2] as int * 0x1_0000 + b[3] as int * 0x100_0000
        + b[4] as int * 0x1_0000_0000 + b[5] as int * 0x100_0000_0000 + b[6] as int
        * 0x1_0000_0000_0000 + b[7] as int * 0x100_0000_0000_0000
}

/// The two's-complement value of 8 little-endian bytes.
pub open spec fn le_i64(b: Seq<u8>) -> int
    recommends
        b.len() >= 8,
{
    if le_u64(b) >= 0x8000_0000_0000_0000 {
        le_u64(b) - 0x1_0000_0000_0000_0000
    } else {
        le_u64(b)
    }
}

/// The time span held in a binary period attribute.
pub open spec fn spec_filetime_to_span(filetime: Seq<u8>) -> int {
    if filetime.len() >= 8 {
        le_i64(filetime)
    } else {
        0
    }
}

/// Reads a binary period attribute: the first 8 bytes as a little-endian
/// signed count of 100 ns intervals, or 0 when fewer than 8 bytes are present.
pub fn filetime_to_span(filetime: Vec<u8>) -> (span: i64)
    ensures
        span == spec_filetime_to_span(filetime@),
{
    if filetime.len() >= 8 {
        let low: u64 = filetime[0] as u64 + filetime[1] as u64 * 0x100 + filetime[2] as u64
            * 0x1_0000 + filetime[3] as u64 * 0x100_0000 + filetime[4] as u64 * 0x1_0000_0000
            + filetime[5] as u64 * 0x100_0000_0000 + filetime[6] as u64 * 0x1_0000_0000_0000;
        let top: u8 = filetime[7];
        if top >= 0x80 {
            let high: u64 = (top - 0x80) as u64 * 0x100_0000_0000_0000;
            let magnitude: i64 = (low + high) as i64;
            magnitude + i64::MIN
        } else {
            (low + top as u64 * 0x100_0000_0000_0000) as i64
        }
    } else {
        0
    }
}

pub const YEAR: u64 = 31536000;

pub const MONTH: u64 = 2592000;

pub const WEEK: u64 = 604800;

pub const DAY: u64 = 86400;

pub const HOUR: u64 = 3600;

pub const MINUTE: u64 = 60;

/// A count with its unit: `1 year`, `3 years`.
pub open spec fn counted(n: nat, singular: Seq<char>, plural: Seq<char>) -> Seq<char> {
    if n == 1 {
        "1 "@ + singular
    } else {
        decimal(n) + " "@ + plural
    }
}

/// The magnitude in whole seconds of a span of 100 ns intervals.
pub open spec fn span_seconds(span: int) -> nat {
    let s = div_toward_zero(span, TICKS_PER_SECOND as int);
    if s < 0 {
        (-s) as nat
    } else {
        s as nat
    }
}

/// The wording of a time span: the largest unit among year (365 days), month
/// (30 days), week, day, hour and minute that divides the span's whole
/// seconds evenly, at least once.
pub open spec fn spec_span_to_string(span: int) -> Seq<char> {
    let s = span_seconds(span);
    if s % (YEAR as nat) == 0 && s / (YEAR as nat) >= 1 {
        counted(s / (YEAR as nat), "year"@, "years"@)
    } else if s % (MONTH as nat) == 0 && s / (MONTH as nat) >= 1 {
        counted(s / (MONTH as nat), "month"@, "months"@)
    } else if s % (WEEK as nat) == 0 && s / (WEEK as nat) >= 1 {
        counted(s / (WEEK as nat), "week"@, "weeks"@)
    } else if s % (DAY as nat) == 0 && s / (DAY as nat) >= 1 {
        counted(s / (DAY as nat), "day"@, "days"@)
    } else if s % (HOUR as nat) == 0 && s / (HOUR as nat) >= 1 {
        counted(s / (HOUR as nat), "hour"@, "hours"@)
    } else if s % (MINUTE as nat) == 0 && s / (MINUTE as nat) >= 1 {
        counted(s / (MINUTE as nat), "minute"@, "minutes"@)
    } else {
        "less than a minute"@
    }
}

fn counted_text(n: u64, singular: &str, plural: &str) -> (out: String)
    ensures
        out@ == counted(n as nat, singular@, plural@),
{
    let mut v: Vec<char> = Vec::new();
    if n == 1 {
        push_str(&mut v, "1 ");
        push_str(&mut v, singular);
    } else {
        push_decimal(&mut v, n);
        push_str(&mut v, " ");
        push_str(&mut v, plural);
    }
    string_of(&v)
}

/// Words a span of 100 ns intervals, whatever its sign.
pub fn span_to_string(span: i64) -> (out: String)
    ensures
        out@ == spec_span_to_string(span as int),
{
    let s: u64 = if span >= 0 {
        (span / TICKS_PER_SECOND) as u64
    } else if span == i64::MIN {
        922337203685
    } else {
        ((-span) / TICKS_PER_SECOND) as u64
    };
    if s % YEAR == 0 && s / YEAR >= 1 {
        counted_text(s / YEAR, "year", "years")
    } else if s % MONTH == 0 && s / MONTH >= 1 {
        counted_text(s / MONTH, "month", "months")
    } else if s % WEEK == 0 && s / WEEK >= 1 {
        counted_text(s / WEEK, "week", "weeks")
    } else if s % DAY == 0 && s / DAY >= 1 {
        counted_text(s / DAY, "day", "days")
    } else if s % HOUR == 0 && s / HOUR >= 1 {
        counted_text(s / HOUR, "hour", "hours")
    } else if s % MINUTE == 0 && s / MINUTE >= 1 {
        counted_text(s / MINUTE, "minute", "minutes")
    } else {
        String::from_str("less than a minute")
    }
}

} // verus!
