//! Instants and times of day.
//!
//! An instant is a count of milliseconds since 1970-01-01T00:00:00Z; every
//! instant the library handles lies in the range that chrono's
//! `DateTime<Utc>` can represent. A time of day is a count of seconds past
//! midnight, below 86 400.

use chrono::Timelike;
use vstd::prelude::*;

verus! {

/// The earliest instant chrono can represent (`DateTime::<Utc>::MIN_UTC`).
pub const MIN_INSTANT_MS: i64 = -8_334_601_315_200_000;

/// The latest instant chrono can represent (`DateTime::<Utc>::MAX_UTC`).
pub const MAX_INSTANT_MS: i64 = 8_210_266_876_799_999;

/// One minute, in milliseconds.
pub const MINUTE_MS: i64 = 60_000;

/// Seconds in a day; every time of day is below it.
pub const SECONDS_PER_DAY: u32 = 86_400;

/// An instant that chrono can represent.
pub open spec fn is_instant(ms: int) -> bool {
    MIN_INSTANT_MS <= ms <= MAX_INSTANT_MS
}

/// Reads the system clock: chrono's `DateTime::<Utc>::from` applied to
/// `SystemTime::now()`, as milliseconds since the epoch. Claimed: the result
/// is an instant chrono can represent; a clock set before 1970 gives a
/// negative instant. Which instant comes back depends on the clock and is
/// not stated. (The conversion unwraps chrono's range check, which only a
/// clock set beyond the year 262142 would fail.)
#[verifier::external_body]
pub(crate) fn now_ms() -> (ms: i64)
    ensures
        is_instant(ms as int),
{
    chrono::DateTime::<chrono::Utc>::from(std::time::SystemTime::now()).timestamp_millis()
}

/// Reads the local wall clock: chrono's `DateTime::<Local>::from` applied to
/// `SystemTime::now()`, as seconds past local midnight
/// (`num_seconds_from_midnight`). Claimed: the result is below 86 400, which
/// holds of every `NaiveTime`. The value depends on the clock and the
/// machine's time zone and is not stated.
#[verifier::external_body]
pub(crate) fn local_seconds_of_day() -> (secs: u32)
    ensures
        secs < SECONDS_PER_DAY,
{
    chrono::DateTime::<chrono::Local>::from(std::time::SystemTime::now())
        .time()
        .num_seconds_from_midnight()
}

/// What chrono's `NaiveTime::parse_from_str(text, format)` yields, as seconds
/// past midnight, or `None` when it reports a parse error.
pub uninterp spec fn chrono_time_of_day(text: Seq<char>, format: Seq<char>) -> Option<u32>;

/// Parses a time of day with chrono's `NaiveTime::parse_from_str`. Claimed:
/// the result is `chrono_time_of_day` of the two arguments (parsing depends on
/// nothing else), and a parsed time is below 86 400 seconds, as every
/// `NaiveTime` is.
#[verifier::external_body]
pub(crate) fn parse_time_of_day(text: &str, format: &str) -> (r: Option<u32>)
    ensures
        r == chrono_time_of_day(text@, format@),
        r matches Some(secs) ==> secs < SECONDS_PER_DAY,
{
    match chrono::NaiveTime::parse_from_str(text, format) {
        Ok(t) => Some(t.num_seconds_from_midnight()),
        Err(_) => None,
    }
}

} // verus!
