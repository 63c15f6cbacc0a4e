//! Millisecond-precision time deltas.

use crate::arith::{
    lemma_trunc_div_in_i64, lemma_trunc_rem_cases, trunc_div, trunc_rem,
};
use crate::TimeError;
use core::cmp::Ordering;
use vstd::prelude::*;
use vstd::std_specs::cmp::PartialOrdSpec;

verus! {

/// A signed span of time with millisecond resolution: a single `i64` count
/// of milliseconds, which may be negative (a "before" offset) or zero.
#[derive(Copy, Clone, Debug, PartialEq, Eq, Structural, Hash)]
pub struct TimeDelta {
    pub(crate) millis: i64,
}

impl View for TimeDelta {
    type V = int;

    closed spec fn view(&self) -> int {
        self.millis as int
    }
}

impl PartialOrd for TimeDelta {
    fn partial_cmp(&self, other: &Self) -> Option<Ordering> {
        if self.millis < other.millis {
            Some(Ordering::Less)
        } else if self.millis == other.millis {
            Some(Ordering::Equal)
        } else {
            Some(Ordering::Greater)
        }
    }
}

impl vstd::std_specs::cmp::PartialOrdSpecImpl for TimeDelta {
    open spec fn obeys_partial_cmp_spec() -> bool {
        true
    }

    open spec fn partial_cmp_spec(&self, other: &Self) -> Option<Ordering> {
        if self@ < other@ {
            Some(Ordering::Less)
        } else if self@ == other@ {
            Some(Ordering::Equal)
        } else {
            Some(Ordering::Greater)
        }
    }
}

impl TimeDelta {
    /// The zero-length delta.
    pub fn zero() -> (r: Self)
        ensures
            r@ == 0,
    {
        TimeDelta { millis: 0 }
    }

    /// A delta of `hours` whole hours.
    pub fn from_hours(hours: i64) -> (r: Self)
        requires
            i64::MIN <= hours * 3_600_000 <= i64::MAX,
        ensures
            r@ == hours * 3_600_000,
    {
        TimeDelta::from_minutes(hours * 60)
    }

    /// A delta of `minutes` whole minutes.
    pub fn from_minutes(minutes: i64) -> (r: Self)
        requires
            i64::MIN <= minutes * 60_000 <= i64::MAX,
        ensures
            r@ == minutes * 60_000,
    {
        TimeDelta::from_seconds(minutes * 60)
    }

    /// A delta of `seconds` whole seconds.
    pub fn from_seconds(seconds: i64) -> (r: Self)
        requires
            i64::MIN <= seconds * 1000 <= i64::MAX,
        ensures
            r@ == seconds * 1000,
    {
        TimeDelta { millis: seconds * 1000 }
    }

    /// A delta of exactly `ms` milliseconds.
    pub fn from_milliseconds(ms: i64) -> (r: Self)
        ensures
            r@ == ms,
    {
        TimeDelta { millis: ms }
    }

    /// The underlying millisecond count.
    pub fn as_milliseconds(self) -> (r: i64)
        ensures
            r == self@,
    {
        self.millis
    }

    /// `true` iff the delta is exactly zero.
    pub fn is_zero(self) -> (r: bool)
        ensures
            r <==> self@ == 0,
    {
        self.millis == 0
    }

    /// `true` iff the delta is strictly positive; zero is not positive.
    pub fn is_positive(self) -> (r: bool)
        ensures
            r <==> self@ > 0,
    {
        self.millis > 0
    }

    /// `true` iff the delta is strictly negative; zero is not negative.
    pub fn is_negative(self) -> (r: bool)
        ensures
            r <==> self@ < 0,
    {
        self.millis < 0
    }

    /// The sum of two deltas.
    pub fn add(self, rhs: TimeDelta) -> (r: TimeDelta)
        requires
            i64::MIN <= self@ + rhs@ <= i64::MAX,
        ensures
            r@ == self@ + rhs@,
    {
        TimeDelta { millis: self.millis + rhs.millis }
    }

    /// The difference of two deltas.
    pub fn subtract(self, rhs: TimeDelta) -> (r: TimeDelta)
        requires
            i64::MIN <= self@ - rhs@ <= i64::MAX,
        ensures
            r@ == self@ - rhs@,
    {
        TimeDelta { millis: self.millis - rhs.millis }
    }

    /// The delta scaled to `n` times its length.
    pub fn scale(self, n: i64) -> (r: TimeDelta)
        requires
            i64::MIN <= self@ * n <= i64::MAX,
        ensures
            r@ == self@ * n,
    {
        TimeDelta { millis: self.millis * n }
    }

    /// The delta shortened by the factor `n`, rounding toward zero.
    pub fn divide(self, n: i64) -> (r: TimeDelta)
        requires
            n != 0,
            !(self@ == i64::MIN && n == -1),
        ensures
            r@ == trunc_div(self@, n as int),
    {
        proof {
            lemma_trunc_div_in_i64(self@, n as int);
        }
        TimeDelta { millis: self.millis.checked_div(n).unwrap() }
    }

    /// How many whole multiples of `rhs` fit into `self`, rounding toward
    /// zero.
    pub fn divide_by(self, rhs: TimeDelta) -> (r: i64)
        requires
            rhs@ != 0,
            !(self@ == i64::MIN && rhs@ == -1),
        ensures
            r == trunc_div(self@, rhs@),
    {
        proof {
            lemma_trunc_div_in_i64(self@, rhs@);
        }
        self.millis.checked_div(rhs.millis).unwrap()
    }

    /// The remainder of `self` after removing every whole multiple of `rhs`,
    /// with the sign convention of truncating division, so that
    /// `rhs * (self.divide_by(rhs)) + self.remainder(rhs) == self`.
    pub fn remainder(self, rhs: TimeDelta) -> (r: TimeDelta)
        requires
            rhs@ != 0,
            !(self@ == i64::MIN && rhs@ == -1),
        ensures
            r@ == trunc_rem(self@, rhs@),
    {
        proof {
            lemma_trunc_rem_cases(self@, rhs@);
        }
        TimeDelta { millis: self.millis.checked_rem(rhs.millis).unwrap() }
    }

    /// As `divide`, reporting the failure cases as errors instead of
    /// excluding them: a zero divisor, and the one quotient that does not
    /// fit in an `i64`.
    pub fn try_divide(self, n: i64) -> (r: Result<TimeDelta, TimeError>)
        ensures
            n == 0 ==> r == Err::<TimeDelta, TimeError>(TimeError::DivisionByZero),
            n != 0 && self@ == i64::MIN && n == -1 ==> r == Err::<TimeDelta, TimeError>(
                TimeError::Overflow,
            ),
            n != 0 && !(self@ == i64::MIN && n == -1) ==> (r matches Ok(d) && d@ == trunc_div(
                self@,
                n as int,
            )),
    {
        if n == 0 {
            Err(TimeError::DivisionByZero)
        } else if self.millis == i64::MIN && n == -1 {
            Err(TimeError::Overflow)
        } else {
            Ok(self.divide(n))
        }
    }

    /// As `divide_by`, reporting the failure cases as errors.
    pub fn try_divide_by(self, rhs: TimeDelta) -> (r: Result<i64, TimeError>)
        ensures
            rhs@ == 0 ==> r == Err::<i64, TimeError>(TimeError::DivisionByZero),
            rhs@ != 0 && self@ == i64::MIN && rhs@ == -1 ==> r == Err::<i64, TimeError>(
                TimeError::Overflow,
            ),
            rhs@ != 0 && !(self@ == i64::MIN && rhs@ == -1) ==> (r matches Ok(q) && q == trunc_div(
                self@,
                rhs@,
            )),
    {
        if rhs.millis == 0 {
            Err(TimeError::DivisionByZero)
        } else if self.millis == i64::MIN && rhs.millis == -1 {
            Err(TimeError::Overflow)
        } else {
            Ok(self.divide_by(rhs))
        }
    }

    /// As `remainder`, reporting the failure cases as errors.
    pub fn try_remainder(self, rhs: TimeDelta) -> (r: Result<TimeDelta, TimeError>)
        ensures
            rhs@ == 0 ==> r == Err::<TimeDelta, TimeError>(TimeError::DivisionByZero),
            rhs@ != 0 && self@ == i64::MIN && rhs@ == -1 ==> r == Err::<TimeDelta, TimeError>(
                TimeError::Overflow,
            ),
            rhs@ != 0 && !(self@ == i64::MIN && rhs@ == -1) ==> (r matches Ok(d) && d@ == trunc_rem(
                self@,
                rhs@,
            )),
    {
        if rhs.millis == 0 {
            Err(TimeError::DivisionByZero)
        } else if self.millis == i64::MIN && rhs.millis == -1 {
            Err(TimeError::Overflow)
        } else {
            Ok(self.remainder(rhs))
        }
    }
}

/// The comparison operators on deltas agree with the order of the underlying
/// millisecond counts, and two deltas are equal exactly when those counts
/// are.
pub proof fn lemma_delta_order_consistent(a: TimeDelta, b: TimeDelta)
    ensures
        a.partial_cmp_spec(&b) == Some(Ordering::Less) <==> a@ < b@,
        a.partial_cmp_spec(&b) == Some(Ordering::Equal) <==> a@ == b@,
        a.partial_cmp_spec(&b) == Some(Ordering::Greater) <==> a@ > b@,
        a == b <==> a@ == b@,
{
}

/// Scaling a delta by a nonzero integer and dividing by it again gives the
/// delta back.
pub proof fn lemma_scale_divide_inverse(d: TimeDelta, n: int)
    requires
        n != 0,
        i64::MIN <= d@ * n <= i64::MAX,
    ensures
        trunc_div(d@ * n, n) == d@,
{
    crate::arith::lemma_trunc_div_exact(d@, n);
}

/// The quotient and remainder of two deltas recombine to the dividend:
/// `(a / b) * b + (a % b) == a` for any nonzero `b`.
pub proof fn lemma_divide_remainder_law(a: TimeDelta, b: TimeDelta)
    requires
        b@ != 0,
    ensures
        trunc_div(a@, b@) * b@ + trunc_rem(a@, b@) == a@,
{
    assert(b@ * trunc_div(a@, b@) == trunc_div(a@, b@) * b@) by (nonlinear_arith);
}

} // verus!
