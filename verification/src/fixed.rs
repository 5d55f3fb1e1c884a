//! Fixed-point scalars and the few arithmetic helpers the pipeline needs:
//! floor division with an exact contract, an integer square root, and a
//! clamped power function for the specular highlight.

use vstd::prelude::*;
use vstd::arithmetic::div_mod::{
    lemma_div_is_ordered, lemma_div_multiples_vanish, lemma_div_pos_is_pos,
    lemma_fundamental_div_mod,
};

verus! {

/// The fixed-point representation of 1.0.
pub const UNIT: i64 = 65536;

/// Largest magnitude allowed for a coordinate, an interpolation sample or a
/// matrix entry.  Keeping every input inside this bound is what makes all
/// the products in the pipeline fit in 64 or 128 bits.
pub const COORD_MAX: i64 = 0x4000_0000;

/// A scalar small enough to take part in the pipeline's arithmetic.
pub open spec fn fits(v: int) -> bool {
    -COORD_MAX <= v <= COORD_MAX
}

/// Euclidean division, which on the nonnegative divisors used throughout
/// this crate is floor division, exactly as `/` means in specifications.
pub fn div_i64(a: i64, b: i64) -> (r: i64)
    requires
        b > 0,
    ensures
        r == a as int / b as int,
{
    proof {
        lemma_fundamental_div_mod(a as int, b as int);
        assert(i64::MIN <= a as int / b as int <= i64::MAX) by (nonlinear_arith)
            requires
                b > 0,
                i64::MIN <= a <= i64::MAX,
                a == b * (a as int / b as int) + a as int % b as int,
                0 <= (a as int % b as int) < b;
    }
    a.checked_div_euclid(b).unwrap()
}

/// Euclidean division on 128-bit intermediates; the divisor may be negative
/// (a matrix determinant, for example).
pub fn div_i128(a: i128, b: i128) -> (r: i128)
    requires
        b != 0,
        -0x4000_0000_0000_0000_0000_0000_0000_0000 < a
            < 0x4000_0000_0000_0000_0000_0000_0000_0000,
    ensures
        r == a as int / b as int,
{
    proof {
        lemma_fundamental_div_mod(a as int, b as int);
        assert(i128::MIN <= a as int / b as int <= i128::MAX) by (nonlinear_arith)
            requires
                b != 0,
                -0x4000_0000_0000_0000_0000_0000_0000_0000 < a
                    < 0x4000_0000_0000_0000_0000_0000_0000_0000,
                a == b * (a as int / b as int) + a as int % b as int,
                0 <= (a as int % b as int) < (if b > 0 { b as int } else { -(b as int) });
    }
    a.checked_div_euclid(b).unwrap()
}

/// Product of two in-range scalars; it cannot leave `i64`.
pub fn mul_i64(a: i64, b: i64) -> (r: i64)
    requires
        fits(a as int),
        fits(b as int),
    ensures
        r == a as int * b as int,
        -0x1000_0000_0000_0000 <= r <= 0x1000_0000_0000_0000,
{
    proof {
        assert(-0x1000_0000_0000_0000 <= a as int * b as int <= 0x1000_0000_0000_0000)
            by (nonlinear_arith)
            requires
                -0x4000_0000 <= a <= 0x4000_0000,
                -0x4000_0000 <= b <= 0x4000_0000;
    }
    a * b
}

/// Product of two 64-bit scalars, widened so it always fits.
pub fn mul_wide(a: i64, b: i64) -> (r: i128)
    ensures
        r == a as int * b as int,
{
    proof {
        assert(i128::MIN <= a as int * b as int <= i128::MAX) by (nonlinear_arith)
            requires
                i64::MIN <= a <= i64::MAX,
                i64::MIN <= b <= i64::MAX;
    }
    (a as i128) * (b as i128)
}

/// Product of two 128-bit values with caller-supplied magnitude bounds,
/// so that the bound of the product is available without a fresh
/// nonlinear proof at every call.
pub fn mul_bounded_i128(a: i128, b: i128, ab: Ghost<int>, bb: Ghost<int>) -> (r: i128)
    requires
        0 <= ab@,
        0 <= bb@,
        -ab@ <= a <= ab@,
        -bb@ <= b <= bb@,
        ab@ * bb@ < 0x4000_0000_0000_0000_0000_0000_0000_0000,
    ensures
        r == a as int * b as int,
        -(ab@ * bb@) <= r <= ab@ * bb@,
{
    proof {
        assert(-(ab@ * bb@) <= a as int * b as int <= ab@ * bb@) by (nonlinear_arith)
            requires
                0 <= ab@,
                0 <= bb@,
                -ab@ <= a as int <= ab@,
                -bb@ <= b as int <= bb@;
    }
    a * b
}

/// A quotient never exceeds the dividend in magnitude.
pub proof fn lemma_div_bound(a: int, b: int)
    requires
        b != 0,
    ensures
        -(if a < 0 { -a } else { a }) <= a / b <= if a < 0 { -a } else { a },
{
    lemma_fundamental_div_mod(a, b);
    assert(-(if a < 0 { -a } else { a }) <= a / b <= if a < 0 { -a } else { a })
        by (nonlinear_arith)
        requires
            b != 0,
            a == b * (a / b) + a % b,
            0 <= (a % b) < (if b > 0 { b } else { -b });
}

/// Dividing by a positive number keeps the sign.
pub proof fn lemma_div_sign(a: int, b: int)
    requires
        b > 0,
    ensures
        a >= 0 ==> a / b >= 0,
        a < 0 ==> a / b < 0,
{
    lemma_fundamental_div_mod(a, b);
    assert((a >= 0 ==> a / b >= 0) && (a < 0 ==> a / b < 0)) by (nonlinear_arith)
        requires
            b > 0,
            a == b * (a / b) + a % b,
            0 <= (a % b) < b;
}

/// `r` is the integer square root of `n`.
pub open spec fn is_sqrt(n: int, r: int) -> bool {
    &&& 0 <= r
    &&& r * r <= n
    &&& n < (r + 1) * (r + 1)
}

/// The integer square root as a value: the unique `r` with
/// `r * r <= n < (r + 1) * (r + 1)`.
pub open spec fn sqrt_val(n: int) -> int {
    choose|r: int| is_sqrt(n, r)
}

/// The integer square root is unique, so `sqrt_val` names the value any
/// witness of `is_sqrt` computes.
pub proof fn lemma_sqrt_unique(n: int, r: int)
    requires
        is_sqrt(n, r),
    ensures
        sqrt_val(n) == r,
{
    assert(is_sqrt(n, sqrt_val(n)));
    let s = sqrt_val(n);
    assert(s == r) by (nonlinear_arith)
        requires
            0 <= r,
            r * r <= n < (r + 1) * (r + 1),
            0 <= s,
            s * s <= n < (s + 1) * (s + 1);
}

/// Integer square root by bisection.
pub fn isqrt(n: u64) -> (r: u64)
    ensures
        is_sqrt(n as int, r as int),
        r == sqrt_val(n as int),
{
    let mut lo: u64 = 0;
    let mut hi: u64 = 0x1_0000_0000;
    while lo + 1 < hi
        invariant
            0 <= lo < hi <= 0x1_0000_0000,
            lo * lo <= n,
            (hi as int) * (hi as int) > n,
        decreases hi - lo,
    {
        let mid: u64 = lo + (hi - lo) / 2;
        proof {
            assert(mid * mid <= 0xffff_ffff_0000_0000u64) by (nonlinear_arith)
                requires 0 <= mid < 0x1_0000_0000u64;
        }
        if mid * mid <= n {
            lo = mid;
        } else {
            hi = mid;
        }
    }
    proof {
        lemma_sqrt_unique(n as int, lo as int);
    }
    lo
}

/// Integer square root by bisection, for 128-bit squared lengths.
pub fn isqrt_u128(n: u128) -> (r: u128)
    ensures
        is_sqrt(n as int, r as int),
        r == sqrt_val(n as int),
{
    let mut lo: u128 = 0;
    let mut hi: u128 = 0x1_0000_0000_0000_0000;
    while lo + 1 < hi
        invariant
            0 <= lo < hi <= 0x1_0000_0000_0000_0000,
            lo * lo <= n,
            (hi as int) * (hi as int) > n,
        decreases hi - lo,
    {
        let mid: u128 = lo + (hi - lo) / 2;
        proof {
            assert(mid * mid <= 0xffff_ffff_ffff_ffff_0000_0000_0000_0000u128)
                by (nonlinear_arith)
                requires 0 <= mid < 0x1_0000_0000_0000_0000u128;
        }
        if mid * mid <= n {
            lo = mid;
        } else {
            hi = mid;
        }
    }
    proof {
        lemma_sqrt_unique(n as int, lo as int);
    }
    lo
}

/// `x^n / UNIT^(n-1)`: the fixed-point power of a value in `[0, 1]`.
pub open spec fn pow_unit_spec(x: int, n: nat) -> int
    decreases n,
{
    if n == 0 {
        UNIT as int
    } else {
        pow_unit_spec(x, (n - 1) as nat) * x / (UNIT as int)
    }
}

/// Raise a fixed-point value in `[0, 1]` to a nonnegative power.
pub fn pow_unit(x: i64, n: u32) -> (r: i64)
    requires
        0 <= x <= UNIT,
    ensures
        r == pow_unit_spec(x as int, n as nat),
        0 <= r <= UNIT,
{
    let mut acc: i64 = UNIT;
    let mut k: u32 = 0;
    while k < n
        invariant
            0 <= x <= UNIT,
            k <= n,
            acc == pow_unit_spec(x as int, k as nat),
            0 <= acc <= UNIT,
        decreases n - k,
    {
        proof {
            assert(acc * x <= UNIT as int * UNIT as int) by (nonlinear_arith)
                requires
                    0 <= acc <= UNIT,
                    0 <= x <= UNIT;
            lemma_div_pos_is_pos(acc * x, UNIT as int);
            assert(acc * x <= acc * (UNIT as int)) by (nonlinear_arith)
                requires
                    0 <= acc,
                    x <= UNIT;
            lemma_div_is_ordered(acc * x, acc * (UNIT as int), UNIT as int);
            lemma_div_multiples_vanish(acc as int, UNIT as int);
        }
        acc = div_i64(acc * x, UNIT);
        k = k + 1;
    }
    acc
}

/// Clamp a scalar into `[lo, hi]`.
pub fn clamp_i64(v: i64, lo: i64, hi: i64) -> (r: i64)
    requires
        lo <= hi,
    ensures
        r == clamp_spec(v as int, lo as int, hi as int),
{
    if v < lo {
        lo
    } else if v > hi {
        hi
    } else {
        v
    }
}

pub open spec fn clamp_spec(v: int, lo: int, hi: int) -> int {
    if v < lo {
        lo
    } else if v > hi {
        hi
    } else {
        v
    }
}

} // verus!
