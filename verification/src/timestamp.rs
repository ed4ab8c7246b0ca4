//! Capture instants: whole seconds and nanoseconds since the start of 1970, UTC.
use vstd::prelude::*;
use vstd::string::*;
use crate::text::digit_char;

verus! {

/// The last second that the calendar library can represent:
/// 31 December of the year 262142, 23:59:59 UTC.
pub const MAX_SECONDS: i64 = 8_210_266_876_799;

/// One more than the largest nanosecond count within a second.
pub const NANOS_PER_SECOND: u32 = 1_000_000_000;

/// A number below one hundred as two decimal digits.
pub open spec fn two_digits(n: int) -> Seq<char> {
    seq![digit_char(n / 10), digit_char(n % 10)]
}

/// The time of day, `HH:MM:SS` on a 24-hour clock, at `secs` seconds after the
/// start of 1970 in UTC.
pub open spec fn clock_text(secs: int) -> Seq<char> {
    two_digits((secs % 86_400) / 3_600) + seq![':'] + two_digits((secs % 3_600) / 60) + seq![':']
        + two_digits(secs % 60)
}

/// The instant `seconds` seconds and `nanoseconds` nanoseconds after the
/// start of 1970, written as date and time of day in UTC after RFC 3339.
pub uninterp spec fn rfc3339_text(seconds: int, nanoseconds: int) -> Seq<char>;

/// An instant in UTC.
#[derive(Clone, Copy, Debug)]
pub struct Timestamp {
    secs: i64,
    nanos: u32,
}

/// Reads the system clock through `chrono::Utc::now` and takes the instant
/// apart with `DateTime::timestamp` and `DateTime::timestamp_subsec_nanos`.
/// The clock decides the value; claimed is only what holds of every instant
/// that `now` can return: it is not before 1970, not after the last
/// representable second, and its nanoseconds stay below one second because
/// `now` never reports a leap second.
#[verifier::external_body]
fn utc_now() -> (parts: (i64, u32))
    ensures
        0 <= parts.0 <= MAX_SECONDS,
        parts.1 < NANOS_PER_SECOND,
{
    let now = chrono::Utc::now();
    (now.timestamp(), now.timestamp_subsec_nanos())
}

/// Formats an instant with `chrono::DateTime::format` and the pattern
/// `%H:%M:%S`, after building it with `DateTime::from_timestamp`. For an
/// instant in range and without a leap second this is the UTC time of day with
/// hour, minute and second each zero-padded to two digits.
#[verifier::external_body]
fn format_clock(secs: i64, nanos: u32) -> (text: String)
    requires
        0 <= secs <= MAX_SECONDS,
        nanos < NANOS_PER_SECOND,
    ensures
        text@ == clock_text(secs as int),
{
    match chrono::DateTime::from_timestamp(secs, nanos) {
        Some(instant) => instant.format("%H:%M:%S").to_string(),
        None => String::new(),
    }
}

/// Writes an instant with `chrono::DateTime::to_rfc3339`, after building it
/// with `DateTime::from_timestamp`. The text depends on the instant alone.
#[verifier::external_body]
fn format_rfc3339(secs: i64, nanos: u32) -> (text: String)
    requires
        0 <= secs <= MAX_SECONDS,
        nanos < NANOS_PER_SECOND,
    ensures
        text@ == rfc3339_text(secs as int, nanos as int),
{
    match chrono::DateTime::from_timestamp(secs, nanos) {
        Some(instant) => instant.to_rfc3339(),
        None => String::new(),
    }
}

impl Timestamp {
    /// Whole seconds since the start of 1970.
    pub closed spec fn seconds(&self) -> int {
        self.secs as int
    }

    /// Nanoseconds into the second.
    pub closed spec fn nanoseconds(&self) -> int {
        self.nanos as int
    }

    /// Every instant lies between the start of 1970 and the last
    /// representable second, with less than a second's worth of nanoseconds.
    #[verifier::type_invariant]
    pub closed spec fn in_range(&self) -> bool {
        &&& 0 <= self.secs <= MAX_SECONDS
        &&& self.nanos < NANOS_PER_SECOND
    }

    /// The instant `secs` seconds and `nanos` nanoseconds after the start of
    /// 1970, if that is a valid instant.
    pub fn new(secs: i64, nanos: u32) -> (instant: Option<Timestamp>)
        ensures
            instant is Some <==> 0 <= secs <= MAX_SECONDS && nanos < NANOS_PER_SECOND,
            instant matches Some(t) ==> t.seconds() == secs && t.nanoseconds() == nanos,
    {
        if 0 <= secs && secs <= MAX_SECONDS && nanos < NANOS_PER_SECOND {
            Some(Timestamp { secs, nanos })
        } else {
            None
        }
    }

    /// The current instant according to the system clock.
    pub fn now() -> (instant: Timestamp)
        ensures
            0 <= instant.seconds() <= MAX_SECONDS,
            0 <= instant.nanoseconds() < NANOS_PER_SECOND,
    {
        let parts = utc_now();
        Timestamp { secs: parts.0, nanos: parts.1 }
    }

    /// Whole seconds since the start of 1970.
    pub fn secs(&self) -> (secs: i64)
        ensures
            secs == self.seconds(),
            0 <= secs <= MAX_SECONDS,
    {
        proof {
            use_type_invariant(self);
        }
        self.secs
    }

    /// Nanoseconds into the second.
    pub fn nanos(&self) -> (nanos: u32)
        ensures
            nanos == self.nanoseconds(),
            nanos < NANOS_PER_SECOND,
    {
        proof {
            use_type_invariant(self);
        }
        self.nanos
    }

    /// Date and time of day after RFC 3339.
    pub fn rfc3339(&self) -> (text: String)
        ensures
            text@ == rfc3339_text(self.seconds(), self.nanoseconds()),
    {
        proof {
            use_type_invariant(self);
        }
        format_rfc3339(self.secs, self.nanos)
    }

    /// The time of day as `HH:MM:SS`.
    pub fn clock(&self) -> (text: String)
        ensures
            text@ == clock_text(self.seconds()),
    {
        proof {
            use_type_invariant(self);
        }
        format_clock(self.secs, self.nanos)
    }
}

} // verus!
