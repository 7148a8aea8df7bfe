//! Scalar helpers for the integer kind of the geometric algebra.
use vstd::prelude::*;

verus! {

/// A mathematical value that an `i64` coordinate can hold.
pub open spec fn fits(v: int) -> bool {
    i64::MIN <= v <= i64::MAX
}

pub open spec fn min_int(a: int, b: int) -> int {
    if a <= b {
        a
    } else {
        b
    }
}

pub open spec fn max_int(a: int, b: int) -> int {
    if a >= b {
        a
    } else {
        b
    }
}

pub open spec fn abs_int(a: int) -> int {
    if a < 0 {
        -a
    } else {
        a
    }
}

/// Division rounding toward zero, as the machine integers divide.
pub open spec fn div_trunc(a: int, b: int) -> int {
    let q = abs_int(a) / abs_int(b);
    if (a < 0) == (b < 0) {
        q
    } else {
        -q
    }
}

/// `(1 - t) * v1 + t * v2`.
pub open spec fn lerp_int(t: int, v1: int, v2: int) -> int {
    (1 - t) * v1 + t * v2
}

pub fn min_i64(a: i64, b: i64) -> (r: i64)
    ensures
        r == min_int(a as int, b as int),
{
    if a <= b {
        a
    } else {
        b
    }
}

pub fn max_i64(a: i64, b: i64) -> (r: i64)
    ensures
        r == max_int(a as int, b as int),
{
    if a >= b {
        a
    } else {
        b
    }
}

pub fn abs_i64(a: i64) -> (r: i64)
    requires
        a != i64::MIN,
    ensures
        r == abs_int(a as int),
{
    if a < 0 {
        -a
    } else {
        a
    }
}

/// Divides rounding toward zero; `b` must not be zero.
pub fn div_trunc_i64(a: i64, b: i64) -> (r: i64)
    requires
        b != 0,
        !(a == i64::MIN && b == -1),
    ensures
        r == div_trunc(a as int, b as int),
{
    let ua: u64 = if a < 0 {
        (-(a as i128)) as u64
    } else {
        a as u64
    };
    let ub: u64 = if b < 0 {
        (-(b as i128)) as u64
    } else {
        b as u64
    };
    let q = ua / ub;
    proof {
        vstd::arithmetic::div_mod::lemma_div_is_ordered_by_denominator(ua as int, 1, ub as int);
        if ub >= 2 {
            vstd::arithmetic::div_mod::lemma_div_is_ordered_by_denominator(ua as int, 2, ub as int);
        }
    }
    if (a < 0) == (b < 0) {
        q as i64
    } else {
        (-(q as i128)) as i64
    }
}

/// `(1 - t) * v1 + t * v2`: linear interpolation between two coordinates.
pub fn lerp(t: i64, v1: i64, v2: i64) -> (r: i64)
    requires
        fits(1 - t),
        fits((1 - t) * v1),
        fits(t * v2),
        fits(lerp_int(t as int, v1 as int, v2 as int)),
    ensures
        r == lerp_int(t as int, v1 as int, v2 as int),
{
    (1 - t) * v1 + t * v2
}

/// The midpoint of two coordinates, rounded down.
pub fn midpoint_i64(a: i64, b: i64) -> (r: i64)
    ensures
        r == (a + b) / 2,
{
    // Shift the sum up by 2^64 so that it is never negative.
    let s: u128 = (a as i128 + b as i128 + 0x1_0000_0000_0000_0000i128) as u128;
    ((s / 2) as i128 - 0x8000_0000_0000_0000i128) as i64
}

/// Relies on `u128::isqrt`: the square root rounded down.
#[verifier::external_body]
pub(crate) fn isqrt_u128(n: u128) -> (r: u128)
    ensures
        r * r <= n,
        n < (r + 1) * (r + 1),
{
    n.isqrt()
}

/// The least `r` with `n <= r * r`.
pub fn ceil_sqrt(n: u128) -> (r: u128)
    ensures
        n <= r * r,
        r == 0 || (r - 1) * (r - 1) < n,
{
    let f = isqrt_u128(n);
    if f * f == n {
        proof {
            if f > 0 {
                assert((f - 1) * (f - 1) < f * f) by (nonlinear_arith)
                    requires
                        f > 0,
                ;
            }
        }
        f
    } else {
        proof {
            assert(f < 0x1_0000_0000_0000_0000u128) by (nonlinear_arith)
                requires
                    f * f <= n,
                    n <= u128::MAX,
            ;
        }
        f + 1
    }
}

} // verus!
