//! The mathematical model of the millisecond arithmetic: truncating
//! (round-toward-zero) division and remainder over unbounded integers, and
//! the alignment ("snap down toward an anchor") function built on them.
//!
//! Rust's `/` and `%` on signed integers truncate toward zero, while spec
//! arithmetic in ghost code is Euclidean; these spec functions bridge the two,
//! and every executable contract in the crate speaks in terms of them.

use vstd::arithmetic::div_mod::{
    lemma_div_basics, lemma_div_by_multiple, lemma_div_is_ordered_by_denominator,
    lemma_div_nonincreasing, lemma_div_pos_is_pos, lemma_fundamental_div_mod,
    lemma_remainder_lower, lemma_mod_bound,
};
use vstd::prelude::*;

verus! {

/// Integer division truncated toward zero, as Rust's `/` computes it on
/// signed integers: `trunc_div(-7, 2) == -3`.
pub open spec fn trunc_div(x: int, d: int) -> int
    recommends
        d != 0,
{
    if x == 0 {
        0
    } else if x > 0 && d > 0 {
        x / d
    } else if x < 0 && d < 0 {
        (-x) / (-d)
    } else if x < 0 {
        -((-x) / d)
    } else {
        -(x / (-d))
    }
}

/// The remainder left by truncating division, as Rust's `%` computes it on
/// signed integers: it satisfies `d * trunc_div(x, d) + trunc_rem(x, d) == x`
/// and takes the sign of the dividend.
pub open spec fn trunc_rem(x: int, d: int) -> int
    recommends
        d != 0,
{
    x - d * trunc_div(x, d)
}

/// Snapping `x` down toward `anchor` to a whole number of `freq` steps:
/// the truncated quotient of `x - anchor` by `freq`, scaled back up and
/// shifted back by the anchor.
pub open spec fn align_down(x: int, anchor: int, freq: int) -> int
    recommends
        freq != 0,
{
    trunc_div(x - anchor, freq) * freq + anchor
}

/// Dividing an exact multiple gives back the factor: for any nonzero `d`,
/// `trunc_div(q * d, d) == q`.
pub proof fn lemma_trunc_div_exact(q: int, d: int)
    requires
        d != 0,
    ensures
        trunc_div(q * d, d) == q,
{
    let x = q * d;
    if q == 0 {
        assert(x == 0) by (nonlinear_arith)
            requires
                q == 0,
                x == q * d,
        ;
    } else if q > 0 && d > 0 {
        assert(x > 0) by (nonlinear_arith)
            requires
                q > 0,
                d > 0,
                x == q * d,
        ;
        lemma_div_by_multiple(q, d);
    } else if q > 0 && d < 0 {
        assert(x < 0 && -x == q * (-d)) by (nonlinear_arith)
            requires
                q > 0,
                d < 0,
                x == q * d,
        ;
        lemma_div_by_multiple(q, -d);
    } else if q < 0 && d > 0 {
        assert(x < 0 && -x == (-q) * d) by (nonlinear_arith)
            requires
                q < 0,
                d > 0,
                x == q * d,
        ;
        lemma_div_by_multiple(-q, d);
    } else {
        assert(x > 0 && x == (-q) * (-d)) by (nonlinear_arith)
            requires
                q < 0,
                d < 0,
                x == q * d,
        ;
        lemma_div_by_multiple(-q, -d);
    }
}

/// The truncated quotient of values that fit in an `i64` fits in an `i64`,
/// except for the one hardware corner case `i64::MIN / -1`.
pub proof fn lemma_trunc_div_in_i64(x: int, d: int)
    requires
        i64::MIN <= x <= i64::MAX,
        i64::MIN <= d <= i64::MAX,
        d != 0,
        !(x == i64::MIN && d == -1),
    ensures
        i64::MIN <= trunc_div(x, d) <= i64::MAX,
{
    if x == 0 {
    } else if x > 0 {
        let e: int = if d > 0 { d } else { -d };
        lemma_div_pos_is_pos(x, e);
        lemma_div_nonincreasing(x, e);
    } else {
        let e: int = if d > 0 { d } else { -d };
        lemma_div_pos_is_pos(-x, e);
        if x > i64::MIN {
            lemma_div_nonincreasing(-x, e);
        } else if e == 1 {
            lemma_div_basics(-x);
        } else {
            lemma_div_is_ordered_by_denominator(-x, 2, e);
            assert((-x) / 2 <= i64::MAX);
        }
    }
}

/// Scaling the truncated quotient back up never moves past the dividend:
/// `trunc_div(x, d) * d` lies between `0` and `x` inclusive.
pub proof fn lemma_trunc_div_mul_bounds(x: int, d: int)
    requires
        d != 0,
    ensures
        x >= 0 ==> 0 <= trunc_div(x, d) * d <= x,
        x < 0 ==> x <= trunc_div(x, d) * d <= 0,
{
    let q = trunc_div(x, d);
    if x == 0 {
        assert(q * d == 0) by (nonlinear_arith)
            requires
                q == 0,
        ;
    } else if x > 0 && d > 0 {
        lemma_div_pos_is_pos(x, d);
        lemma_remainder_lower(x, d);
        assert(q * d >= 0) by (nonlinear_arith)
            requires
                q >= 0,
                d > 0,
        ;
        assert(q * d == x / d * d);
    } else if x > 0 && d < 0 {
        let p = x / (-d);
        lemma_div_pos_is_pos(x, -d);
        lemma_remainder_lower(x, -d);
        assert(q * d == p * (-d)) by (nonlinear_arith)
            requires
                q == -p,
        ;
    } else if x < 0 && d > 0 {
        let p = (-x) / d;
        lemma_div_pos_is_pos(-x, d);
        lemma_remainder_lower(-x, d);
        assert(q * d == -(p * d)) by (nonlinear_arith)
            requires
                q == -p,
        ;
    } else {
        let p = (-x) / (-d);
        lemma_div_pos_is_pos(-x, -d);
        lemma_remainder_lower(-x, -d);
        assert(q * d == -(p * (-d))) by (nonlinear_arith)
            requires
                q == p,
        ;
    }
}

/// The remainder of truncating division, written with Euclidean `%` over
/// nonnegative operands, case by case; and its bound `|trunc_rem| < |d|`.
pub proof fn lemma_trunc_rem_cases(x: int, d: int)
    requires
        d != 0,
    ensures
        trunc_rem(x, d) == (if x == 0 {
            0int
        } else if x > 0 && d > 0 {
            x % d
        } else if x < 0 && d < 0 {
            -((-x) % (-d))
        } else if x < 0 {
            -((-x) % d)
        } else {
            x % (-d)
        }),
        x >= 0 ==> 0 <= trunc_rem(x, d),
        x < 0 ==> trunc_rem(x, d) <= 0,
        -(if d > 0 { d } else { -d }) < trunc_rem(x, d) < (if d > 0 { d } else { -d }),
{
    let q = trunc_div(x, d);
    if x == 0 {
        assert(d * q == 0) by (nonlinear_arith)
            requires
                q == 0,
        ;
        if d > 0 {
            lemma_mod_bound(0, d);
        } else {
            lemma_mod_bound(0, -d);
        }
    } else if x > 0 && d > 0 {
        lemma_fundamental_div_mod(x, d);
        lemma_mod_bound(x, d);
    } else if x > 0 && d < 0 {
        let p = x / (-d);
        lemma_fundamental_div_mod(x, -d);
        lemma_mod_bound(x, -d);
        assert(d * q == (-d) * p) by (nonlinear_arith)
            requires
                q == -p,
        ;
    } else if x < 0 && d > 0 {
        let p = (-x) / d;
        lemma_fundamental_div_mod(-x, d);
        lemma_mod_bound(-x, d);
        assert(d * q == -(d * p)) by (nonlinear_arith)
            requires
                q == -p,
        ;
    } else {
        let p = (-x) / (-d);
        lemma_fundamental_div_mod(-x, -d);
        lemma_mod_bound(-x, -d);
        assert(d * q == -((-d) * p)) by (nonlinear_arith)
            requires
                q == p,
                d * q == d * p,
        ;
    }
}

/// Aligning twice is the same as aligning once: snapping an already snapped
/// value down toward the same anchor by the same frequency does not move it.
pub proof fn lemma_align_down_idempotent(x: int, anchor: int, freq: int)
    requires
        freq != 0,
    ensures
        align_down(align_down(x, anchor, freq), anchor, freq) == align_down(x, anchor, freq),
{
    let q = trunc_div(x - anchor, freq);
    assert(align_down(x, anchor, freq) - anchor == q * freq);
    lemma_trunc_div_exact(q, freq);
}

} // verus!
