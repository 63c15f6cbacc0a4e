//! Simple & fast UTC time types.
//!
//! Millisecond-resolution timestamps and time deltas, each a single signed
//! 64-bit count of milliseconds, together with a lazy range generator that
//! steps from one timestamp to another. Calendar-aware work (formatting,
//! parsing, the current instant) is delegated to the `chrono` crate at an
//! explicit conversion boundary; everything else is plain integer arithmetic.
//!
//! Overflow policy: the plain arithmetic operations state as preconditions
//! that their mathematical result fits in an `i64`; they never wrap or panic.
//! The division family is also offered in `try_` form, which reports
//! `TimeError::DivisionByZero` and `TimeError::Overflow` as values instead.

use vstd::prelude::*;

pub mod arith;
pub mod calendar;
pub mod delta;
pub mod range;
pub mod timestamp;

pub use delta::TimeDelta;
pub use range::TimeRange;
pub use timestamp::UtcTimeStamp;

verus! {

/// An error reported by the checked (`try_`) arithmetic operations.
#[derive(Copy, Clone, Debug, PartialEq, Eq, Structural)]
pub enum TimeError {
    /// A division or remainder was asked for with a zero divisor,
    /// or an alignment with a zero frequency.
    DivisionByZero,
    /// The mathematical result does not fit in a signed 64-bit
    /// millisecond count.
    Overflow,
}

} // verus!
