//! The conversion boundary with the `chrono` calendar library.
//!
//! Timestamps and deltas are plain millisecond counts; everything
//! calendar-aware — building a calendar datetime, reading one back, the
//! current instant, and human-readable rendering — is delegated to `chrono`
//! through the trusted wrappers in this module. The integer work on this
//! side of the boundary (splitting a millisecond count into epoch seconds
//! and nanoseconds) is verified.

use crate::delta::TimeDelta;
use crate::timestamp::UtcTimeStamp;
use vstd::arithmetic::div_mod::{
    lemma_div_by_multiple, lemma_fundamental_div_mod, lemma_fundamental_div_mod_converse,
    lemma_mod_bound,
};
use vstd::prelude::*;

verus! {

#[verifier::external_type_specification]
#[verifier::external_body]
pub struct ExNaiveDateTime(chrono::NaiveDateTime);

#[verifier::external_type_specification]
#[verifier::external_body]
pub struct ExChronoDuration(chrono::Duration);

/// The millisecond count since the epoch that the calendar library reads
/// from a naive datetime taken as UTC calendar time: the value of chrono's
/// `timestamp_millis`, a function of the datetime value alone.
pub uninterp spec fn naive_millis_of(dt: chrono::NaiveDateTime) -> int;

/// The whole-millisecond count of a chrono duration: the value of chrono's
/// `num_milliseconds`, a function of the duration value alone.
pub uninterp spec fn chrono_delta_millis_of(d: chrono::Duration) -> int;

/// Whether the instant `ms` milliseconds after the epoch lies within the
/// calendar library's representable range (about ±262,000 years from the
/// common era): chrono's datetime constructors succeed exactly on such
/// instants, and the range test depends on the millisecond count alone.
pub uninterp spec fn calendar_representable(ms: int) -> bool;

/// The calendar library's rendering of the UTC instant `ms` milliseconds
/// after the epoch, e.g. `2015-05-15 00:00:00 UTC`; it depends on the
/// millisecond count alone.
pub uninterp spec fn calendar_display_of(ms: int) -> Seq<char>;

/// The calendar library's ISO-8601-style rendering of a span of `ms`
/// milliseconds, e.g. `PT43200S`; it depends on the millisecond count alone.
pub uninterp spec fn delta_display_of(ms: int) -> Seq<char>;

/// Relies on chrono's `From<SystemTime>` conversion, which reads a clock
/// value before the epoch without panicking, and on
/// `DateTime::timestamp_millis`: the current instant as milliseconds since
/// the epoch. Nothing can be promised of a clock reading.
#[verifier::external_body]
pub(crate) fn clock_now_millis() -> i64 {
    chrono::DateTime::<chrono::Utc>::from(std::time::SystemTime::now()).timestamp_millis()
}

/// Relies on `chrono::DateTime::from_timestamp` (read back as the UTC
/// calendar time): the calendar datetime for the given epoch seconds and
/// in-second nanoseconds. With the nanoseconds below one second, as the
/// callers here always pass them, the source returns `Some` exactly when
/// the seconds pass its calendar-range test, which depends only on the
/// instant — that is, on the millisecond count the arguments encode. The
/// constructor is documented to round-trip with `timestamp` and
/// `timestamp_subsec_nanos`, so the produced datetime carries exactly that
/// millisecond count.
#[verifier::external_body]
pub(crate) fn calendar_from_parts(secs: i64, nanos: u32) -> (r: Option<chrono::NaiveDateTime>)
    requires
        nanos < 1_000_000_000,
    ensures
        r is Some <==> calendar_representable(secs * 1000 + nanos / 1_000_000),
        r matches Some(d) ==> naive_millis_of(d) == secs * 1000 + nanos / 1_000_000,
{
    chrono::DateTime::from_timestamp(secs, nanos).map(|dt| dt.naive_utc())
}

/// Relies on `chrono::DateTime::timestamp_millis`, with the naive datetime
/// taken as UTC calendar time: its count of non-leap milliseconds since the
/// epoch, which names the datetime's millisecond count.
#[verifier::external_body]
pub(crate) fn calendar_millis(dt: &chrono::NaiveDateTime) -> (r: i64)
    ensures
        r == naive_millis_of(*dt),
{
    dt.and_utc().timestamp_millis()
}

/// Relies on `chrono::Duration::try_milliseconds`: `None` exactly for
/// `i64::MIN` milliseconds (chrono's delta range is symmetric, `±i64::MAX`),
/// else the chrono delta of exactly that count, as `num_milliseconds`
/// reads it back.
#[verifier::external_body]
pub(crate) fn calendar_delta_from_millis(ms: i64) -> (r: Option<chrono::Duration>)
    ensures
        r is Some <==> ms != i64::MIN,
        r matches Some(c) ==> chrono_delta_millis_of(c) == ms,
{
    chrono::Duration::try_milliseconds(ms)
}

/// Relies on `chrono::Duration::num_milliseconds`: the delta's count of
/// whole milliseconds, which names the duration's millisecond count.
#[verifier::external_body]
pub(crate) fn calendar_delta_millis(d: &chrono::Duration) -> (r: i64)
    ensures
        r == chrono_delta_millis_of(*d),
{
    d.num_milliseconds()
}

/// Relies on `chrono::DateTime::from_timestamp_millis` and chrono's
/// `Display` for `DateTime<Utc>`: the rendering of the instant `ms`
/// milliseconds after the epoch. The source computes the same floor split
/// and calendar-range test as `from_timestamp`, so it succeeds exactly on
/// the representable instants; the rendering depends on the millisecond
/// count alone.
#[verifier::external_body]
pub(crate) fn format_calendar_millis(ms: i64) -> (r: Option<String>)
    ensures
        r is Some <==> calendar_representable(ms as int),
        r matches Some(s) ==> s@ == calendar_display_of(ms as int),
{
    chrono::DateTime::<chrono::Utc>::from_timestamp_millis(ms).map(|dt| format!("{}", dt))
}

/// Relies on `chrono::Duration::try_milliseconds` and chrono's `Display`
/// for its duration type: the ISO-8601-style rendering of a span of `ms`
/// milliseconds, `None` exactly for `i64::MIN`.
#[verifier::external_body]
pub(crate) fn format_calendar_delta(ms: i64) -> (r: Option<String>)
    ensures
        r is Some <==> ms != i64::MIN,
        r matches Some(s) ==> s@ == delta_display_of(ms as int),
{
    chrono::Duration::try_milliseconds(ms).map(|d| format!("{}", d))
}

impl UtcTimeStamp {
    /// The millisecond count split for the calendar library: whole epoch
    /// seconds rounded toward minus infinity, and the remainder as
    /// nanoseconds, always in `[0, 10^9)` and a whole number of
    /// milliseconds.
    pub fn to_calendar_parts(self) -> (r: (i64, u32))
        ensures
            r.0 == self@ / 1000,
            r.1 == (self@ % 1000) * 1_000_000,
    {
        let ms = self.as_milliseconds();
        proof {
            crate::arith::lemma_trunc_div_in_i64(ms as int, 1000);
            crate::arith::lemma_trunc_rem_cases(ms as int, 1000);
        }
        let q = ms.checked_div(1000).unwrap();
        let rem = ms.checked_rem(1000).unwrap();
        if rem < 0 {
            proof {
                lemma_fundamental_div_mod_converse(ms as int, 1000, q as int - 1, rem as int + 1000);
            }
            (q - 1, ((rem + 1000) * 1_000_000) as u32)
        } else {
            proof {
                lemma_fundamental_div_mod_converse(ms as int, 1000, q as int, rem as int);
            }
            (q, (rem * 1_000_000) as u32)
        }
    }

    /// The timestamp as a calendar datetime (the UTC calendar time, as this
    /// library is UTC-only); `None` exactly where chrono's calendar range
    /// is exceeded, and otherwise a datetime carrying this very millisecond
    /// count.
    pub fn to_calendar_datetime(self) -> (r: Option<chrono::NaiveDateTime>)
        ensures
            r is Some <==> calendar_representable(self@),
            r matches Some(d) ==> naive_millis_of(d) == self@,
    {
        let (secs, nanos) = self.to_calendar_parts();
        proof {
            lemma_fundamental_div_mod(self@, 1000);
            lemma_mod_bound(self@, 1000);
            lemma_div_by_multiple(self@ % 1000, 1_000_000);
            assert(secs * 1000 + nanos / 1_000_000 == self@);
        }
        calendar_from_parts(secs, nanos)
    }

    /// The timestamp of a calendar datetime, taken as UTC calendar time:
    /// its count of non-leap milliseconds since the epoch. Total, no
    /// failure.
    pub fn from_calendar_datetime(dt: chrono::NaiveDateTime) -> (r: UtcTimeStamp)
        ensures
            r@ == naive_millis_of(dt),
    {
        UtcTimeStamp::from_milliseconds(calendar_millis(&dt))
    }

    /// The timestamp rendered by the calendar library, e.g.
    /// `2015-05-15 00:00:00 UTC`; `None` exactly where chrono's calendar
    /// range is exceeded.
    pub fn to_display_string(self) -> (r: Option<String>)
        ensures
            r is Some <==> calendar_representable(self@),
            r matches Some(s) ==> s@ == calendar_display_of(self@),
    {
        format_calendar_millis(self.as_milliseconds())
    }
}

/// The verified half of the calendar round trip: the split that
/// `to_calendar_parts` performs loses nothing, since the epoch seconds and
/// the nanoseconds recombine exactly to the original millisecond count.
/// The other half — that chrono maps those parts to a calendar datetime
/// and back unchanged — is chrono's own documented round-trip guarantee.
pub proof fn lemma_parts_recombine(t: UtcTimeStamp)
    ensures
        (t@ / 1000) * 1000 + ((t@ % 1000) * 1_000_000) / 1_000_000 == t@,
{
    lemma_fundamental_div_mod(t@, 1000);
    lemma_mod_bound(t@, 1000);
    lemma_div_by_multiple(t@ % 1000, 1_000_000);
}

impl TimeDelta {
    /// The delta as a chrono delta of this very millisecond count; `None`
    /// exactly for `i64::MIN` milliseconds, which lies just outside
    /// chrono's symmetric range.
    pub fn to_calendar_duration(self) -> (r: Option<chrono::Duration>)
        ensures
            r is Some <==> self@ != i64::MIN,
            r matches Some(c) ==> chrono_delta_millis_of(c) == self@,
    {
        calendar_delta_from_millis(self.as_milliseconds())
    }

    /// The delta of a chrono delta: its count of whole milliseconds.
    /// Total, no failure.
    pub fn from_calendar_duration(d: chrono::Duration) -> (r: TimeDelta)
        ensures
            r@ == chrono_delta_millis_of(d),
    {
        TimeDelta::from_milliseconds(calendar_delta_millis(&d))
    }

    /// The delta rendered by the calendar library in its ISO-8601 style,
    /// e.g. `PT43200S`; `None` exactly for `i64::MIN` milliseconds.
    pub fn to_display_string(self) -> (r: Option<String>)
        ensures
            r is Some <==> self@ != i64::MIN,
            r matches Some(s) ==> s@ == delta_display_of(self@),
    {
        format_calendar_delta(self.as_milliseconds())
    }
}

} // verus!
