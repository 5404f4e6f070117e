//! 16.16 fixed-point arithmetic.
//!
//! A value `v: i64` stands for the real number `v / FX_ONE`.  All camera
//! quantities (angles in radians, distances, matrix entries) are carried in
//! this representation; quotients truncate toward zero, the rounding that
//! hardware integer division gives.

use vstd::prelude::*;
use vstd::arithmetic::div_mod::{lemma_div_nonincreasing, lemma_div_of0, lemma_div_pos_is_pos};

verus! {

/// Number of fixed-point steps in one unit: a value `v` stands for `v / FX_ONE`.
pub const FX_ONE: i64 = 65536;

/// Quotient of `n` by a positive `d`, truncated toward zero.
pub open spec fn div_trunc(n: int, d: int) -> int
    recommends
        d > 0,
{
    if n >= 0 {
        n / d
    } else {
        -((-n) / d)
    }
}

/// `n` forced into the interval `[lo, hi]`.
pub open spec fn clamp_spec(n: int, lo: int, hi: int) -> int
    recommends
        lo <= hi,
{
    if n < lo {
        lo
    } else if n > hi {
        hi
    } else {
        n
    }
}

/// Product of two fixed-point values, truncated toward zero.
pub open spec fn fx_mul_spec(a: int, b: int) -> int {
    div_trunc(a * b, FX_ONE as int)
}

/// The truncated quotient lies between 0 and the dividend.
pub proof fn lemma_div_trunc_bounds(n: int, d: int)
    requires
        d > 0,
    ensures
        n >= 0 ==> 0 <= div_trunc(n, d) <= n,
        n < 0 ==> n <= div_trunc(n, d) <= 0,
{
    if n >= 0 {
        lemma_div_pos_is_pos(n, d);
        lemma_div_nonincreasing(n, d);
    } else {
        lemma_div_pos_is_pos(-n, d);
        lemma_div_nonincreasing(-n, d);
    }
}

/// A dividend no larger in magnitude than `a * d` keeps the truncated
/// quotient no larger in magnitude than `a`.
pub proof fn lemma_div_trunc_mag(n: int, d: int, a: int)
    requires
        d > 0,
        a >= 0,
        -(a * d) <= n <= a * d,
    ensures
        -a <= div_trunc(n, d) <= a,
{
    vstd::arithmetic::div_mod::lemma_div_by_multiple(a, d);
    if n >= 0 {
        vstd::arithmetic::div_mod::lemma_div_is_ordered(n, a * d, d);
        vstd::arithmetic::div_mod::lemma_div_pos_is_pos(n, d);
    } else {
        vstd::arithmetic::div_mod::lemma_div_is_ordered(-n, a * d, d);
        vstd::arithmetic::div_mod::lemma_div_pos_is_pos(-n, d);
    }
}

/// A dividend within two to the sixty-second keeps the quotient in i64 range.
pub proof fn lemma_div_trunc_fits_i64(n: int, d: int)
    requires
        d > 0,
        -0x4000_0000_0000_0000 <= n <= 0x4000_0000_0000_0000,
    ensures
        -i64::MAX <= div_trunc(n, d) <= i64::MAX,
{
    lemma_div_trunc_bounds(n, d);
}

/// `a + delta` forced into `[lo, hi]`, computed without overflow.
pub fn add_clamped(a: i64, delta: i64, lo: i64, hi: i64) -> (r: i64)
    requires
        lo <= hi,
    ensures
        r == clamp_spec(a + delta, lo as int, hi as int),
{
    let s: i128 = a as i128 + delta as i128;
    if s < lo as i128 {
        lo
    } else if s > hi as i128 {
        hi
    } else {
        s as i64
    }
}

/// Truncated `(a * b) / c` for positive `c`, computed in 128-bit arithmetic.
pub fn mul_div(a: i64, b: i64, c: i64) -> (r: i64)
    requires
        c > 0,
        -i64::MAX <= div_trunc(a * b, c as int) <= i64::MAX,
    ensures
        r == div_trunc(a as int * b as int, c as int),
{
    proof {
        assert(-0x4000_0000_0000_0000_0000_0000_0000_0000 <= (a as int) * (b as int)
            <= 0x4000_0000_0000_0000_0000_0000_0000_0000) by (nonlinear_arith)
            requires
                -0x8000_0000_0000_0000 <= a <= 0x7FFF_FFFF_FFFF_FFFF,
                -0x8000_0000_0000_0000 <= b <= 0x7FFF_FFFF_FFFF_FFFF,
        ;
    }
    let p: i128 = (a as i128) * (b as i128);
    proof {
        let x = p as int;
        let d = c as int;
        lemma_div_trunc_bounds(x, d);
        if x == 0 {
            lemma_div_of0(d);
        }
        assert(x > 0 ==> x / d == div_trunc(x, d));
        assert(x < 0 ==> ((x * -1) / d) * -1 == div_trunc(x, d));
        assert(x == 0 ==> 0 == div_trunc(x, d));
    }
    let q: i128 = match p.checked_div(c as i128) {
        Some(q) => q,
        None => vstd::pervasive::unreached(),
    };
    q as i64
}

} // verus!
