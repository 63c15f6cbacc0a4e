//! Millisecond-precision UTC timestamps.

use crate::arith::{
    align_down, lemma_align_down_idempotent, lemma_trunc_div_in_i64, lemma_trunc_div_mul_bounds,
};
use crate::delta::TimeDelta;
use crate::TimeError;
use core::cmp::Ordering;
use vstd::prelude::*;
use vstd::std_specs::cmp::PartialOrdSpec;

verus! {

/// A dumb but fast UTC timestamp: a signed 64-bit count of milliseconds
/// since the epoch, `1970-01-01 00:00:00 UTC`. Any `i64` value is a valid
/// timestamp; negative counts lie before the epoch.
#[derive(Copy, Clone, Debug, PartialEq, Eq, Structural, Hash)]
pub struct UtcTimeStamp {
    pub(crate) millis: i64,
}

impl View for UtcTimeStamp {
    type V = int;

    closed spec fn view(&self) -> int {
        self.millis as int
    }
}

impl PartialOrd for UtcTimeStamp {
    fn partial_cmp(&self, other: &Self) -> Option<Ordering> {
        if self.millis < other.millis {
            Some(Ordering::Less)
        } else if self.millis == other.millis {
            Some(Ordering::Equal)
        } else {
            Some(Ordering::Greater)
        }
    }
}

impl vstd::std_specs::cmp::PartialOrdSpecImpl for UtcTimeStamp {
    open spec fn obeys_partial_cmp_spec() -> bool {
        true
    }

    open spec fn partial_cmp_spec(&self, other: &Self) -> Option<Ordering> {
        if self@ < other@ {
            Some(Ordering::Less)
        } else if self@ == other@ {
            Some(Ordering::Equal)
        } else {
            Some(Ordering::Greater)
        }
    }
}

impl UtcTimeStamp {
    /// The epoch instant, `1970-01-01 00:00:00 UTC`.
    pub fn zero() -> (r: Self)
        ensures
            r@ == 0,
    {
        UtcTimeStamp { millis: 0 }
    }

    /// The current instant, read from the system clock via the calendar
    /// library. Nothing is promised of a clock reading.
    pub fn now() -> Self {
        UtcTimeStamp { millis: crate::calendar::clock_now_millis() }
    }

    /// The timestamp `ms` milliseconds after the epoch.
    pub fn from_milliseconds(ms: i64) -> (r: Self)
        ensures
            r@ == ms,
    {
        UtcTimeStamp { millis: ms }
    }

    /// The timestamp `seconds` whole seconds after the epoch.
    pub fn from_seconds(seconds: i64) -> (r: Self)
        requires
            i64::MIN <= seconds * 1000 <= i64::MAX,
        ensures
            r@ == seconds * 1000,
    {
        UtcTimeStamp { millis: seconds * 1000 }
    }

    /// The underlying millisecond count.
    pub fn as_milliseconds(self) -> (r: i64)
        ensures
            r == self@,
    {
        self.millis
    }

    /// `true` iff the timestamp is the epoch itself.
    pub fn is_zero(self) -> (r: bool)
        ensures
            r <==> self@ == 0,
    {
        self.millis == 0
    }

    /// The timestamp snapped down toward the epoch to a whole number of
    /// `freq` steps; the frequency must be nonzero.
    pub fn align_to(self, freq: TimeDelta) -> (r: UtcTimeStamp)
        requires
            freq@ != 0,
            !(self@ == i64::MIN && freq@ == -1),
        ensures
            r@ == align_down(self@, 0, freq@),
    {
        self.align_to_anchored(UtcTimeStamp::zero(), freq)
    }

    /// The timestamp snapped down toward `anchor` to a whole number of
    /// `freq` steps: `anchor` plus the truncated quotient of the distance,
    /// scaled back up. Truncation is toward zero on the distance, so a
    /// timestamp before the anchor snaps toward the anchor.
    pub fn align_to_anchored(self, anchor: UtcTimeStamp, freq: TimeDelta) -> (r: UtcTimeStamp)
        requires
            freq@ != 0,
            i64::MIN <= self@ - anchor@ <= i64::MAX,
            !(self@ - anchor@ == i64::MIN && freq@ == -1),
        ensures
            r@ == align_down(self@, anchor@, freq@),
    {
        let f = freq.as_milliseconds();
        let diff = self.millis - anchor.millis;
        proof {
            lemma_trunc_div_in_i64(diff as int, f as int);
            lemma_trunc_div_mul_bounds(diff as int, f as int);
        }
        let q = diff.checked_div(f).unwrap();
        let scaled = q.checked_mul(f).unwrap();
        UtcTimeStamp { millis: scaled + anchor.millis }
    }

    /// As `align_to`, reporting the failure cases as errors instead of
    /// excluding them.
    pub fn try_align_to(self, freq: TimeDelta) -> (r: Result<UtcTimeStamp, TimeError>)
        ensures
            freq@ == 0 ==> r == Err::<UtcTimeStamp, TimeError>(TimeError::DivisionByZero),
            freq@ != 0 && self@ == i64::MIN && freq@ == -1 ==> r == Err::<UtcTimeStamp, TimeError>(
                TimeError::Overflow,
            ),
            freq@ != 0 && !(self@ == i64::MIN && freq@ == -1) ==> (r matches Ok(t) && t@
                == align_down(self@, 0, freq@)),
    {
        self.try_align_to_anchored(UtcTimeStamp::zero(), freq)
    }

    /// As `align_to_anchored`, reporting the failure cases as errors: a zero
    /// frequency, and a distance from the anchor (or quotient) outside the
    /// `i64` range.
    pub fn try_align_to_anchored(self, anchor: UtcTimeStamp, freq: TimeDelta) -> (r: Result<
        UtcTimeStamp,
        TimeError,
    >)
        ensures
            freq@ == 0 ==> r == Err::<UtcTimeStamp, TimeError>(TimeError::DivisionByZero),
            freq@ != 0 && !(i64::MIN <= self@ - anchor@ <= i64::MAX) ==> r == Err::<
                UtcTimeStamp,
                TimeError,
            >(TimeError::Overflow),
            freq@ != 0 && self@ - anchor@ == i64::MIN && freq@ == -1 ==> r == Err::<
                UtcTimeStamp,
                TimeError,
            >(TimeError::Overflow),
            freq@ != 0 && i64::MIN <= self@ - anchor@ <= i64::MAX && !(self@ - anchor@ == i64::MIN
                && freq@ == -1) ==> (r matches Ok(t) && t@ == align_down(self@, anchor@, freq@)),
    {
        let f = freq.as_milliseconds();
        if f == 0 {
            return Err(TimeError::DivisionByZero);
        }
        let diff = match self.millis.checked_sub(anchor.millis) {
            None => {
                return Err(TimeError::Overflow);
            },
            Some(d) => d,
        };
        if diff == i64::MIN && f == -1 {
            return Err(TimeError::Overflow);
        }
        Ok(self.align_to_anchored(anchor, freq))
    }

    /// The timestamp advanced by a delta.
    pub fn add(self, rhs: TimeDelta) -> (r: UtcTimeStamp)
        requires
            i64::MIN <= self@ + rhs@ <= i64::MAX,
        ensures
            r@ == self@ + rhs@,
    {
        UtcTimeStamp { millis: self.millis + rhs.as_milliseconds() }
    }

    /// The timestamp moved back by a delta.
    pub fn subtract(self, rhs: TimeDelta) -> (r: UtcTimeStamp)
        requires
            i64::MIN <= self@ - rhs@ <= i64::MAX,
        ensures
            r@ == self@ - rhs@,
    {
        UtcTimeStamp { millis: self.millis - rhs.as_milliseconds() }
    }

    /// The signed delta from `earlier` to `self`.
    pub fn delta_since(self, earlier: UtcTimeStamp) -> (r: TimeDelta)
        requires
            i64::MIN <= self@ - earlier@ <= i64::MAX,
        ensures
            r@ == self@ - earlier@,
    {
        TimeDelta::from_milliseconds(self.millis - earlier.millis)
    }

    /// Advance the timestamp in place by a delta.
    pub fn add_assign(&mut self, rhs: TimeDelta)
        requires
            i64::MIN <= old(self)@ + rhs@ <= i64::MAX,
        ensures
            final(self)@ == old(self)@ + rhs@,
    {
        self.millis = self.millis + rhs.as_milliseconds();
    }

    /// Move the timestamp in place back by a delta.
    pub fn subtract_assign(&mut self, rhs: TimeDelta)
        requires
            i64::MIN <= old(self)@ - rhs@ <= i64::MAX,
        ensures
            final(self)@ == old(self)@ - rhs@,
    {
        self.millis = self.millis - rhs.as_milliseconds();
    }
}

/// The comparison operators on timestamps agree with the order of the
/// underlying millisecond counts, and two timestamps are equal exactly when
/// those counts are.
pub proof fn lemma_timestamp_order_consistent(a: UtcTimeStamp, b: UtcTimeStamp)
    ensures
        a.partial_cmp_spec(&b) == Some(Ordering::Less) <==> a@ < b@,
        a.partial_cmp_spec(&b) == Some(Ordering::Equal) <==> a@ == b@,
        a.partial_cmp_spec(&b) == Some(Ordering::Greater) <==> a@ > b@,
        a == b <==> a@ == b@,
{
}

/// Adding a delta and then subtracting it returns to the original
/// timestamp, and subtracting the original timestamp from the sum gives the
/// delta back.
pub proof fn lemma_add_subtract_identity(t: UtcTimeStamp, d: TimeDelta)
    ensures
        (t@ + d@) - d@ == t@,
        (t@ + d@) - t@ == d@,
{
}

/// Aligning a timestamp to a nonzero frequency is idempotent: aligning the
/// aligned value again does not move it.
pub proof fn lemma_align_to_idempotent(t: UtcTimeStamp, freq: TimeDelta)
    requires
        freq@ != 0,
    ensures
        align_down(align_down(t@, 0, freq@), 0, freq@) == align_down(t@, 0, freq@),
{
    lemma_align_down_idempotent(t@, 0, freq@);
}

} // verus!
