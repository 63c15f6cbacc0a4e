//! A lazy range of timestamps stepped by a delta.

use crate::delta::TimeDelta;
use crate::timestamp::UtcTimeStamp;
use vstd::prelude::*;

verus! {

/// A single-pass generator of timestamps: starting from a cursor, it emits
/// the cursor and advances it by a fixed step until the cursor passes (or,
/// for a right-open range, reaches) the end bound. The range is always
/// left-closed; whether the end bound itself is produced is fixed at
/// construction. Once exhausted it stays exhausted; a fresh range must be
/// constructed to iterate again.
///
/// A step that does not move the cursor toward the end bound — say, a zero
/// or negative step while the cursor lies below the bound — never exhausts
/// the range, and production is then unbounded. The constructors do not
/// guard against this: the step's direction is the caller's choice.
#[derive(Debug)]
pub struct TimeRange {
    cur: UtcTimeStamp,
    end: UtcTimeStamp,
    step: TimeDelta,
    right_closed: bool,
}

impl TimeRange {
    /// The cursor: the next candidate value, as milliseconds.
    pub closed spec fn cursor(&self) -> int {
        self.cur@
    }

    /// The end bound, as milliseconds.
    pub closed spec fn end_bound(&self) -> int {
        self.end@
    }

    /// The step added to the cursor after each produced value, as
    /// milliseconds.
    pub closed spec fn step_size(&self) -> int {
        self.step@
    }

    /// Whether the end bound itself is produced when the cursor lands on it.
    pub closed spec fn is_right_closed(&self) -> bool {
        self.right_closed
    }

    /// The range is exhausted when the cursor has passed the end bound —
    /// or reached it, if the range is right-open.
    pub open spec fn exhausted(&self) -> bool {
        if self.is_right_closed() {
            self.cursor() > self.end_bound()
        } else {
            self.cursor() >= self.end_bound()
        }
    }

    /// The range `[start, end]`, stepping by `step`: the end bound is
    /// produced if the cursor lands on it exactly.
    pub fn right_closed(start: UtcTimeStamp, end: UtcTimeStamp, step: TimeDelta) -> (r: TimeRange)
        ensures
            r.cursor() == start@,
            r.end_bound() == end@,
            r.step_size() == step@,
            r.is_right_closed(),
    {
        TimeRange { cur: start, end, step, right_closed: true }
    }

    /// The range `[start, end)`, stepping by `step`: the end bound is never
    /// produced.
    pub fn right_open(start: UtcTimeStamp, end: UtcTimeStamp, step: TimeDelta) -> (r: TimeRange)
        ensures
            r.cursor() == start@,
            r.end_bound() == end@,
            r.step_size() == step@,
            !r.is_right_closed(),
    {
        TimeRange { cur: start, end, step, right_closed: false }
    }

    /// Produce the next timestamp, or `None` once the range is exhausted.
    /// While active, the current cursor is emitted and the cursor advances
    /// by the step; once exhausted, the state no longer changes, so every
    /// later call returns `None` as well.
    pub fn next(&mut self) -> (r: Option<UtcTimeStamp>)
        requires
            !old(self).exhausted() ==> i64::MIN <= old(self).cursor() + old(self).step_size()
                <= i64::MAX,
        ensures
            old(self).exhausted() ==> r is None && *final(self) == *old(self),
            !old(self).exhausted() ==> {
                &&& r matches Some(t) && t@ == old(self).cursor()
                &&& final(self).cursor() == old(self).cursor() + old(self).step_size()
                &&& final(self).end_bound() == old(self).end_bound()
                &&& final(self).step_size() == old(self).step_size()
                &&& final(self).is_right_closed() == old(self).is_right_closed()
            },
    {
        let exhausted = if self.right_closed {
            self.cur.as_milliseconds() > self.end.as_milliseconds()
        } else {
            self.cur.as_milliseconds() >= self.end.as_milliseconds()
        };
        if exhausted {
            None
        } else {
            let cur = self.cur;
            self.cur = cur.add(self.step);
            Some(cur)
        }
    }
}

} // verus!
