//! Fixed-point scalar arithmetic.
//!
//! Every physical scalar in this library (a length in meters, a speed, a mass,
//! an acceleration, a time delta in seconds) is an `i64` holding the value
//! times `FP`, i.e. in thousandths of a unit. All operations are total:
//! a result that would leave the `i64` range saturates at `i64::MIN` /
//! `i64::MAX`, quotients round toward zero, and a division by zero yields
//! zero (callers guard the degenerate cases explicitly).

use vstd::prelude::*;

verus! {

use vstd::arithmetic::div_mod::lemma_div_nonincreasing;

/// Number of raw `i64` steps per whole unit: scalars hold thousandths.
pub const FP: i64 = 1000;

/// One half, as a fixed-point factor (`0.5 * FP`).
pub const FP_HALF: i64 = 500;

/// Magnitude of a mathematical integer.
pub open spec fn abs_int(x: int) -> int {
    if x >= 0 {
        x
    } else {
        -x
    }
}

/// Saturation of a mathematical integer into the `i64` range.
pub open spec fn clip(x: int) -> int {
    if x > i64::MAX {
        i64::MAX as int
    } else if x < i64::MIN {
        i64::MIN as int
    } else {
        x
    }
}

/// Quotient of `a` by `b`, rounded toward zero; zero when `b` is zero.
pub open spec fn div_trunc(a: int, b: int) -> int {
    if b == 0 {
        0
    } else {
        let q = abs_int(a) / abs_int(b);
        if (a >= 0) == (b >= 0) {
            q
        } else {
            -q
        }
    }
}

/// Fixed-point sum, saturating.
pub open spec fn fp_add_spec(a: int, b: int) -> int {
    clip(a + b)
}

/// Fixed-point difference, saturating.
pub open spec fn fp_sub_spec(a: int, b: int) -> int {
    clip(a - b)
}

/// Fixed-point negation, saturating (`-i64::MIN` clips to `i64::MAX`).
pub open spec fn fp_neg_spec(a: int) -> int {
    clip(-a)
}

/// Fixed-point product: `a * b / FP`, rounded toward zero, saturating.
pub open spec fn fp_mul_spec(a: int, b: int) -> int {
    clip(div_trunc(a * b, FP as int))
}

/// Fixed-point quotient: `a * FP / b`, rounded toward zero, saturating;
/// zero when `b` is zero.
pub open spec fn fp_div_spec(a: int, b: int) -> int {
    clip(div_trunc(a * (FP as int), b))
}

/// Floor of the square root of `x`; zero for negative `x`.
pub open spec fn sqrt_int(x: int) -> int
    decreases x,
{
    if x < 1 {
        0
    } else {
        let r = sqrt_int(x - 1);
        if (r + 1) * (r + 1) <= x {
            r + 1
        } else {
            r
        }
    }
}

/// Fixed-point square root: `sqrt_int(a * FP)`, so that the result is again
/// in fixed-point units; zero for a non-positive argument.
pub open spec fn fp_sqrt_spec(a: int) -> int {
    if a <= 0 {
        0
    } else {
        sqrt_int(a * (FP as int))
    }
}

pub proof fn lemma_sqrt_int_bounds(x: int)
    requires
        x >= 0,
    ensures
        sqrt_int(x) >= 0,
        sqrt_int(x) * sqrt_int(x) <= x,
        x < (sqrt_int(x) + 1) * (sqrt_int(x) + 1),
    decreases x,
{
    if x < 1 {
    } else {
        lemma_sqrt_int_bounds(x - 1);
        let r = sqrt_int(x - 1);
        if (r + 1) * (r + 1) <= x {
            assert(x < (r + 2) * (r + 2)) by (nonlinear_arith)
                requires
                    r >= 0,
                    x - 1 < (r + 1) * (r + 1),
            ;
        }
    }
}

pub proof fn lemma_sqrt_int_unique(x: int, r: int)
    requires
        x >= 0,
        r >= 0,
        r * r <= x,
        x < (r + 1) * (r + 1),
    ensures
        r == sqrt_int(x),
{
    lemma_sqrt_int_bounds(x);
    let s = sqrt_int(x);
    assert(r == s) by (nonlinear_arith)
        requires
            r >= 0,
            s >= 0,
            r * r <= x,
            x < (r + 1) * (r + 1),
            s * s <= x,
            x < (s + 1) * (s + 1),
    ;
}

proof fn lemma_mul_i64_fits_i128(x: int, y: int)
    requires
        i64::MIN <= x <= i64::MAX,
        i64::MIN <= y <= i64::MAX,
    ensures
        -0x40000000000000000000000000000000 <= x * y <= 0x40000000000000000000000000000000,
{
    assert(x * y <= 0x40000000000000000000000000000000 && -0x40000000000000000000000000000000
        <= x * y) by (nonlinear_arith)
        requires
            -0x8000000000000000 <= x <= 0x8000000000000000,
            -0x8000000000000000 <= y <= 0x8000000000000000,
    ;
}

/// Saturate an `i128` into the `i64` range.
fn clip_exec(x: i128) -> (r: i64)
    ensures
        r == clip(x as int),
{
    if x > i64::MAX as i128 {
        i64::MAX
    } else if x < i64::MIN as i128 {
        i64::MIN
    } else {
        x as i64
    }
}

/// Divide an `i128` by `FP`, rounding toward zero.
fn div_by_fp(p: i128) -> (q: i128)
    requires
        p != i128::MIN,
    ensures
        q == div_trunc(p as int, FP as int),
{
    if p >= 0 {
        let m: u128 = p as u128;
        let d: u128 = m / (FP as u128);
        proof {
            lemma_div_nonincreasing(m as int, FP as int);
        }
        d as i128
    } else {
        let m: u128 = (-p) as u128;
        let d: u128 = m / (FP as u128);
        proof {
            lemma_div_nonincreasing(m as int, FP as int);
        }
        -(d as i128)
    }
}

/// Fixed-point sum, saturating.
pub fn fp_add(a: i64, b: i64) -> (r: i64)
    ensures
        r == fp_add_spec(a as int, b as int),
{
    clip_exec(a as i128 + b as i128)
}

/// Fixed-point difference, saturating.
pub fn fp_sub(a: i64, b: i64) -> (r: i64)
    ensures
        r == fp_sub_spec(a as int, b as int),
{
    clip_exec(a as i128 - b as i128)
}

/// Fixed-point negation, saturating.
pub fn fp_neg(a: i64) -> (r: i64)
    ensures
        r == fp_neg_spec(a as int),
{
    clip_exec(-(a as i128))
}

/// Fixed-point product `a * b / FP`, rounded toward zero, saturating.
pub fn fp_mul(a: i64, b: i64) -> (r: i64)
    ensures
        r == fp_mul_spec(a as int, b as int),
{
    proof {
        lemma_mul_i64_fits_i128(a as int, b as int);
    }
    let p: i128 = (a as i128) * (b as i128);
    let q: i128 = div_by_fp(p);
    clip_exec(q)
}

/// Fixed-point quotient `a * FP / b`, rounded toward zero, saturating;
/// zero when `b` is zero.
pub fn fp_div(a: i64, b: i64) -> (r: i64)
    ensures
        r == fp_div_spec(a as int, b as int),
{
    if b == 0 {
        return 0;
    }
    proof {
        assert(-0x8000000000000000 * 1000 <= (a as int) * (FP as int) <= 0x7fffffffffffffff
            * 1000) by (nonlinear_arith)
            requires
                -0x8000000000000000 <= a as int <= 0x7fffffffffffffff,
                FP == 1000i64,
        ;
    }
    let p: i128 = (a as i128) * (FP as i128);
    let pm: u128 = if p >= 0 {
        p as u128
    } else {
        (-p) as u128
    };
    let bm: u128 = if b >= 0 {
        b as u128
    } else {
        (-(b as i128)) as u128
    };
    let qm: u128 = pm / bm;
    proof {
        lemma_div_nonincreasing(pm as int, bm as int);
    }
    let q: i128 = if (p >= 0) == (b >= 0) {
        qm as i128
    } else {
        -(qm as i128)
    };
    proof {
        assert(pm == abs_int(p as int));
        assert(bm == abs_int(b as int));
        assert((p as int >= 0) == (a as int >= 0) || p == 0);
    }
    clip_exec(q)
}

/// Fixed-point floor square root; zero for a non-positive argument.
pub fn fp_sqrt(a: i64) -> (r: i64)
    ensures
        r == fp_sqrt_spec(a as int),
{
    if a <= 0 {
        return 0;
    }
    proof {
        assert(0 <= (a as int) * (FP as int) <= 0x7fffffffffffffff * 1000) by (nonlinear_arith)
            requires
                0 < a as int <= 0x7fffffffffffffff,
                FP == 1000i64,
        ;
    }
    let x: u128 = (a as u128) * (FP as u128);
    let r: u128 = isqrt_u128(x);
    proof {
        lemma_sqrt_int_bounds(x as int);
        assert(r < 0x8000000000000000) by (nonlinear_arith)
            requires
                r >= 0,
                (r as int) * (r as int) <= x as int,
                x as int <= 0x7fffffffffffffff * 1000,
        ;
    }
    r as i64
}

/// Floor square root of a `u128` no larger than `i64::MAX * FP`,
/// by bisection.
fn isqrt_u128(x: u128) -> (r: u128)
    requires
        x <= 0x7fffffffffffffff * 1000,
    ensures
        r == sqrt_int(x as int),
{
    let mut lo: u128 = 0;
    let mut hi: u128 = 137438953472;  // 2^37, whose square exceeds i64::MAX * FP
    proof {
        assert((hi as int) * (hi as int) > 0x7fffffffffffffff * 1000) by (nonlinear_arith)
            requires
                hi == 137438953472u128,
        ;
    }
    while lo + 1 < hi
        invariant
            lo < hi <= 137438953472,
            (lo as int) * (lo as int) <= x as int,
            (x as int) < (hi as int) * (hi as int),
        decreases hi - lo,
    {
        let mid: u128 = lo + (hi - lo) / 2;
        proof {
            assert(lo < mid < hi);
            assert((mid as int) * (mid as int) < 0x100000000000000000000000000000000)
                by (nonlinear_arith)
                requires
                    0 <= mid as int <= 137438953472,
            ;
        }
        let sq: u128 = mid * mid;
        if sq <= x {
            lo = mid;
        } else {
            hi = mid;
        }
    }
    proof {
        lemma_sqrt_int_unique(x as int, lo as int);
    }
    lo
}

} // verus!
