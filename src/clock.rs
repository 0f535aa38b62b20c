use chrono::TimeZone;
use vstd::prelude::*;

verus! {

/// Milliseconds in one minute.
pub const MILLIS_PER_MINUTE: i64 = 60000;

/// The last millisecond that chrono can represent, 262142-12-31T23:59:59.999
/// UTC, counted from the Unix epoch.
pub const LATEST_MILLIS: i64 = 8210266876799999;

/// An instant as the logic reads it: milliseconds since the Unix epoch, and
/// the offset from UTC, in seconds, of the zone it is written in.
#[derive(Clone, Copy, Debug, PartialEq, Eq, Structural)]
pub struct Moment {
    pub millis: i64,
    pub offset_secs: i32,
}

impl Moment {
    /// The offset is one that a fixed time zone can have: under a day either way.
    pub open spec fn wf(self) -> bool {
        -86400 < self.offset_secs < 86400
    }

    /// The instant lies between the Unix epoch and the last one chrono can represent.
    pub open spec fn in_range(self) -> bool {
        0 <= self.millis <= LATEST_MILLIS
    }
}

/// Whole minutes from `now` to `end`, truncated toward zero: negative once
/// `end` has passed.
pub open spec fn minutes_between(end: int, now: int) -> int {
    let d = end - now;
    if d >= 0 {
        d / 60000
    } else {
        -((-d) / 60000)
    }
}

/// Whole minutes left from `now_millis` until `end_millis`, truncated toward zero.
pub fn minutes_left(end_millis: i64, now_millis: i64) -> (r: i64)
    ensures
        r as int == minutes_between(end_millis as int, now_millis as int),
{
    let d: i128 = (end_millis as i128) - (now_millis as i128);
    if d >= 0 {
        let q: u128 = (d as u128) / 60000;
        q as i64
    } else {
        let q: u128 = ((-d) as u128) / 60000;
        -(q as i64)
    }
}

/// The instant that chrono's `DateTime::parse_from_rfc3339` reads from a
/// text, as milliseconds since the Unix epoch; `None` where it refuses the text.
pub uninterp spec fn rfc3339_instant(text: Seq<char>) -> Option<i64>;

/// The text that chrono's `DateTime::to_rfc3339` writes for an instant, given
/// in milliseconds since the Unix epoch, shown at a fixed offset in seconds;
/// `None` where chrono cannot represent the offset or the instant.
pub uninterp spec fn rfc3339_text(millis: i64, offset_secs: i32) -> Option<Seq<char>>;

/// Relies on chrono's `DateTime::parse_from_rfc3339` to read a date-time, and
/// on `DateTime::timestamp_millis` to give its instant.
#[verifier::external_body]
pub(crate) fn parse_rfc3339(text: &str) -> (r: Option<i64>)
    ensures
        r == rfc3339_instant(text@),
{
    match chrono::DateTime::parse_from_rfc3339(text) {
        Ok(t) => Some(t.timestamp_millis()),
        Err(_) => None,
    }
}

/// Relies on chrono's `FixedOffset::east_opt` and `TimeZone::timestamp_millis_opt`
/// to place the instant at the offset, and on `DateTime::to_rfc3339` to write it.
/// `east_opt` takes every offset under a day either way, and
/// `timestamp_millis_opt` every instant that `DateTime::from_timestamp_millis`
/// takes, which includes all from the epoch to `LATEST_MILLIS`.
#[verifier::external_body]
pub(crate) fn format_rfc3339(millis: i64, offset_secs: i32) -> (r: Option<String>)
    ensures
        match r {
            Some(s) => rfc3339_text(millis, offset_secs) == Some(s@),
            None => rfc3339_text(millis, offset_secs) is None,
        },
        -86400 < offset_secs < 86400 && 0 <= millis <= LATEST_MILLIS ==> r is Some,
{
    match chrono::FixedOffset::east_opt(offset_secs) {
        Some(tz) => match tz.timestamp_millis_opt(millis).single() {
            Some(t) => Some(t.to_rfc3339()),
            None => None,
        },
        None => None,
    }
}

/// Relies on chrono's `Local::now` for the current instant and the local
/// zone's offset at it; a `FixedOffset` is always under a day either way.
/// `Utc::now`, which it reads, refuses a clock before the epoch and builds a
/// `DateTime`, so the instant lies within chrono's range.
#[verifier::external_body]
pub(crate) fn local_now() -> (r: Moment)
    ensures
        r.wf(),
        r.in_range(),
{
    let t = chrono::Local::now();
    Moment { millis: t.timestamp_millis(), offset_secs: t.offset().local_minus_utc() }
}

} // verus!
