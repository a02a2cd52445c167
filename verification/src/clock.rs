//! Points in time and elapsed durations as plain integers, and the calls
//! into `chrono` and `std::time` that read the clock and format times.

use vstd::prelude::*;

verus! {

/// The last second that `chrono` can represent as a UTC date-time
/// (31 December of year 262142, 23:59:59).
pub const MAX_TIMESTAMP_SECS: i64 = 8210266876799i64;

/// A UTC point in time: whole seconds since 1970-01-01T00:00:00Z and the
/// nanoseconds past that second.
#[derive(Clone, Copy, Debug, PartialEq, Eq, Structural)]
pub struct Timestamp {
    pub secs: i64,
    pub nanos: u32,
}

impl Timestamp {
    /// A moment that the system clock can report and `chrono` can format:
    /// not before 1970, within `chrono`'s range, nanoseconds below one second.
    pub open spec fn representable(self) -> bool {
        0 <= self.secs <= MAX_TIMESTAMP_SECS && self.nanos < 1_000_000_000
    }

    /// `self` lies strictly after `other`.
    pub open spec fn spec_after(self, other: Timestamp) -> bool {
        self.secs > other.secs || (self.secs == other.secs && self.nanos > other.nanos)
    }

    /// Whether `self` lies strictly after `other`.
    pub fn is_after(&self, other: &Timestamp) -> (r: bool)
        ensures
            r == self.spec_after(*other),
    {
        self.secs > other.secs || (self.secs == other.secs && self.nanos > other.nanos)
    }

    /// Adding `minutes` whole minutes keeps the moment representable.
    pub open spec fn can_add_minutes(self, minutes: u64) -> bool {
        self.representable() && self.secs + minutes * 60 <= MAX_TIMESTAMP_SECS
    }

    /// The same moment `minutes` whole minutes later (as `chrono` adds a
    /// `TimeDelta` of that many minutes, which panics past its last
    /// representable moment).
    pub fn plus_minutes(&self, minutes: u64) -> (r: Timestamp)
        requires
            self.can_add_minutes(minutes),
        ensures
            r.secs == self.secs + minutes * 60,
            r.nanos == self.nanos,
            r.representable(),
    {
        let m: i64 = minutes as i64;
        Timestamp { secs: self.secs + m * 60, nanos: self.nanos }
    }
}

/// The current UTC time (`chrono::Utc::now`).
/// `Utc::now` reads the system clock as a duration since the epoch and
/// builds a date-time from it, panicking unless that date-time is within
/// chrono's range; so what it returns is never before 1970, never past the
/// last representable second, and carries fewer than 10^9 nanoseconds.
/// Which moment it returns is not stated.
#[verifier::external_body]
pub fn utc_now() -> (t: Timestamp)
    ensures
        t.representable(),
{
    let now = chrono::Utc::now();
    Timestamp { secs: now.timestamp(), nanos: now.timestamp_subsec_nanos() }
}

/// The text that `chrono` writes for a representable moment under a
/// `strftime`-style pattern.
pub uninterp spec fn spec_format_utc(secs: i64, nanos: u32, pattern: Seq<char>) -> Seq<char>;

/// A character of a moment written under the library's patterns: a
/// decimal digit, `+` or `-`.
pub open spec fn is_stamp_char(c: char) -> bool {
    ('0' <= c && c <= '9') || c == '+' || c == '-'
}

/// Formats a moment with `chrono`'s `DateTime::format` under one of the two
/// patterns this library uses (`%Y%m%d` and `%Y%m%d-%H%M%S`); writing an
/// invalid pattern with `to_string` panics, so the pattern is required to be
/// one of these. The contract names the text, and states what `chrono`'s
/// formatting code shows of it: the year is written as four digits, or with
/// a `+` sign when it has more; month, day, hour, minute and second as two
/// digits; the pattern's `-` as it is; so every character is a digit, `+` or
/// `-`.
#[verifier::external_body]
pub(crate) fn format_utc(t: Timestamp, pattern: &str) -> (r: String)
    requires
        t.representable(),
        pattern@ == "%Y%m%d"@ || pattern@ == "%Y%m%d-%H%M%S"@,
    ensures
        r@ == spec_format_utc(t.secs, t.nanos, pattern@),
        forall|i: int| 0 <= i < r@.len() ==> is_stamp_char(#[trigger] r@[i]),
{
    chrono::DateTime::from_timestamp(t.secs, t.nanos).unwrap().format(pattern).to_string()
}

/// The RFC 3339 text that `chrono` writes for a representable moment.
pub uninterp spec fn spec_rfc3339(secs: i64, nanos: u32) -> Seq<char>;

/// Formats a moment with `chrono`'s `DateTime::to_rfc3339`. The contract
/// names the text without describing it.
#[verifier::external_body]
pub(crate) fn rfc3339(t: Timestamp) -> (r: String)
    requires
        t.representable(),
    ensures
        r@ == spec_rfc3339(t.secs, t.nanos),
{
    chrono::DateTime::from_timestamp(t.secs, t.nanos).unwrap().to_rfc3339()
}

/// A span of time: whole seconds and the nanoseconds past them.
#[derive(Clone, Copy, Debug, PartialEq, Eq, Structural)]
pub struct Elapsed {
    pub secs: u64,
    pub nanos: u32,
}

impl Elapsed {
    /// Nanoseconds stay below one second.
    pub open spec fn wf(self) -> bool {
        self.nanos < 1_000_000_000
    }

    /// The whole milliseconds in the span.
    pub open spec fn spec_millis(self) -> int {
        self.secs * 1000 + self.nanos / 1_000_000
    }

    /// The total number of whole milliseconds in the span.
    pub fn as_millis(&self) -> (r: u128)
        ensures
            r == self.spec_millis(),
    {
        (self.secs as u128) * 1000 + (self.nanos / 1_000_000) as u128
    }
}

/// The text of `std::time::Duration`'s `Debug` output for a span.
pub uninterp spec fn spec_duration_debug(secs: u64, nanos: u32) -> Seq<char>;

/// Writes a span the way `std::time::Duration`'s `Debug` does (`{:?}`).
/// The contract names the text without describing it.
#[verifier::external_body]
pub(crate) fn duration_debug(e: Elapsed) -> (r: String)
    requires
        e.wf(),
    ensures
        r@ == spec_duration_debug(e.secs, e.nanos),
{
    format!("{:?}", std::time::Duration::new(e.secs, e.nanos))
}

} // verus!
