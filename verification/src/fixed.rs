//! Fixed-point arithmetic helpers shared by the control pipeline.
//!
//! Every physical quantity in the crate is an integer at a fixed scale: a
//! stored value `v` stands for `v / 1000` of the underlying unit (radians,
//! radians per second, unit gain, and so on).

use vstd::prelude::*;
use vstd::arithmetic::div_mod::{lemma_div_is_ordered, lemma_div_by_multiple, lemma_div_pos_is_pos};

verus! {

/// Scale of all fixed-point quantities: a stored value `v` stands for `v / 1000`.
pub const SCALE: u64 = 1000;

/// Truncating (round-toward-zero) division, the semantics of Rust's `/`.
/// Verus's `/` on `int` is Euclidean, which differs on negative dividends,
/// so the crate's contracts speak of this function instead.
pub open spec fn tdiv(x: int, d: int) -> int
    recommends
        d > 0,
{
    if x >= 0 {
        x / d
    } else {
        -((-x) / d)
    }
}

/// Clamp `x` into the interval `[lo, hi]`.
pub open spec fn clamp(x: int, lo: int, hi: int) -> int
    recommends
        lo <= hi,
{
    if x < lo {
        lo
    } else if x > hi {
        hi
    } else {
        x
    }
}

/// Dividing by a positive `d` cannot push a value outside a symmetric bound:
/// if `|x| <= b * d` then `|tdiv(x, d)| <= b`.
pub proof fn lemma_tdiv_bound(x: int, d: int, b: int)
    requires
        d > 0,
        b >= 0,
        -(b * d) <= x <= b * d,
    ensures
        -b <= tdiv(x, d) <= b,
{
    if x >= 0 {
        lemma_div_pos_is_pos(x, d);
        lemma_div_is_ordered(x, b * d, d);
        lemma_div_by_multiple(b, d);
    } else {
        lemma_div_pos_is_pos(-x, d);
        lemma_div_is_ordered(-x, b * d, d);
        lemma_div_by_multiple(b, d);
    }
}

/// A product of a bounded signed factor and a bounded nonnegative factor is
/// bounded by the product of the bounds.
pub proof fn lemma_mul_bound(x: int, y: int, bx: int, by: int)
    by (nonlinear_arith)
    requires
        -bx <= x <= bx,
        0 <= y <= by,
        bx >= 0,
    ensures
        -(bx * by) <= x * y <= bx * by,
{
}

/// Truncating division of a signed value by a positive divisor, carried out
/// on magnitudes so that the executable result matches `tdiv` exactly.
pub fn div_trunc(x: i64, d: u64) -> (r: i64)
    requires
        d > 0,
        x != i64::MIN,
    ensures
        r == tdiv(x as int, d as int),
{
    if x >= 0 {
        proof {
            lemma_div_pos_is_pos(x as int, d as int);
            vstd::arithmetic::div_mod::lemma_div_nonincreasing(x as int, d as int);
        }
        ((x as u64) / d) as i64
    } else {
        proof {
            lemma_div_pos_is_pos(-(x as int), d as int);
            vstd::arithmetic::div_mod::lemma_div_nonincreasing(-(x as int), d as int);
        }
        -(((-x) as u64 / d) as i64)
    }
}

/// Clamp a signed value into `[lo, hi]`.
pub fn clamp_i64(x: i64, lo: i64, hi: i64) -> (r: i64)
    requires
        lo <= hi,
    ensures
        r == clamp(x as int, lo as int, hi as int),
{
    if x < lo {
        lo
    } else if x > hi {
        hi
    } else {
        x
    }
}

} // verus!
