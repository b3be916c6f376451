//! Date-times of service dates, held as the UNIX seconds and the
//! sub-second nanoseconds of a `chrono::NaiveDateTime`.
use chrono::{DateTime, NaiveDateTime};
use vstd::prelude::*;

verus! {

/// The first second that `chrono` can represent (January 1, 262143 BCE).
pub const MIN_SECONDS: i64 = -8334601228800i64;

/// The last second that `chrono` can represent (December 31, 262142 CE, 23:59:59).
pub const MAX_SECONDS: i64 = 8210266876799i64;

/// A naive (zone-less) date-time: seconds since 1970-01-01 00:00:00 and
/// nanoseconds within the second (at or above 10^9 during a leap second).
#[derive(Clone, Copy, Debug)]
pub struct Timestamp {
    pub secs: i64,
    pub nanos: u32,
}

impl Timestamp {
    /// The values `chrono::DateTime::from_timestamp` accepts: a second in the
    /// representable range, and a leap-second fraction only in the last
    /// second of a minute.
    pub open spec fn is_valid(self) -> bool {
        &&& MIN_SECONDS <= self.secs <= MAX_SECONDS
        &&& self.nanos < 2_000_000_000
        &&& self.nanos >= 1_000_000_000 ==> self.secs % 60 == 59
    }
}

/// What `NaiveDateTime::parse_from_str(text, format)` gives, as
/// `(seconds, nanoseconds)`.
pub uninterp spec fn spec_parse_date_time(text: Seq<char>, format: Seq<char>) -> Option<(i64, u32)>;

/// What `NaiveDateTime`'s `Display` writes for the date-time at `(secs, nanos)`.
pub uninterp spec fn spec_display_date_time(secs: i64, nanos: u32) -> Seq<char>;

/// Calls `chrono::NaiveDateTime::parse_from_str(text, format)`. Trusted: the
/// result is the name applied to the arguments, and a parsed date-time lies
/// in `chrono`'s range (every `NaiveDateTime` does).
#[verifier::external_body]
pub(crate) fn parse_date_time(text: &str, format: &str) -> (parsed: Option<Timestamp>)
    ensures
        parsed is Some <==> spec_parse_date_time(text@, format@) is Some,
        parsed matches Some(t) ==> spec_parse_date_time(text@, format@) == Some((t.secs, t.nanos)) && t.is_valid(),
{
    match NaiveDateTime::parse_from_str(text, format) {
        Ok(d) => Some(Timestamp { secs: d.and_utc().timestamp(), nanos: d.and_utc().timestamp_subsec_nanos() }),
        Err(_) => None,
    }
}

/// Writes a date-time with `chrono::NaiveDateTime`'s `Display`
/// (`%Y-%m-%d %H:%M:%S` and a fraction when there is one). Trusted: the text
/// is the name applied to the value. `DateTime::from_timestamp` rebuilds the
/// date-time; it succeeds on every valid value.
#[verifier::external_body]
pub(crate) fn display_date_time(t: &Timestamp) -> (text: String)
    requires
        t.is_valid(),
    ensures
        text@ == spec_display_date_time(t.secs, t.nanos),
{
    DateTime::from_timestamp(t.secs, t.nanos).unwrap().naive_utc().to_string()
}

} // verus!
