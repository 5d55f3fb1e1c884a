//! Vectors and matrices over fixed-point scalars.
//!
//! Componentwise operations are exact; `dot`, `cross` and the matrix
//! products return exactly the integer formulas their contracts state.
//! Operations that divide (a matrix product rescales by `UNIT`, `normalize`
//! divides by the magnitude) round toward minus infinity, and their
//! contracts say so with the specification `/`.

use vstd::prelude::*;
use crate::fixed::{
    div_i64, div_i128, fits, isqrt, lemma_div_bound, lemma_div_sign,
    mul_bounded_i128, mul_i64, mul_wide, sqrt_val, COORD_MAX, UNIT,
};

verus! {

/// A pair of scalars: a screen point or a texture coordinate.
#[derive(Clone, Copy, Debug, PartialEq, Eq, Structural)]
pub struct Vec2(pub i64, pub i64);

impl Vec2 {
    pub open spec fn bounded(&self) -> bool {
        fits(self.0 as int) && fits(self.1 as int)
    }
}

/// A point or direction in 3-space.
#[derive(Clone, Copy, Debug, PartialEq, Eq, Structural)]
pub struct Vec3(pub i64, pub i64, pub i64);

/// The dot product as a mathematical integer.
pub open spec fn dot3(a: Vec3, b: Vec3) -> int {
    a.0 * b.0 + a.1 * b.1 + a.2 * b.2
}

/// The squared Euclidean length.
pub open spec fn norm2(v: Vec3) -> int {
    dot3(v, v)
}

/// The cross product, componentwise.
pub open spec fn cross3(a: Vec3, b: Vec3) -> (int, int, int) {
    (
        a.1 * b.2 - a.2 * b.1,
        a.2 * b.0 - a.0 * b.2,
        a.0 * b.1 - a.1 * b.0,
    )
}

pub proof fn lemma_norm2_nonneg(v: Vec3)
    ensures
        norm2(v) >= 0,
{
    assert(v.0 * v.0 + v.1 * v.1 + v.2 * v.2 >= 0) by (nonlinear_arith);
}

/// Each component squared is at most the squared length, so no component
/// exceeds the magnitude.
proof fn lemma_component_le_sqrt(v: Vec3, m: int)
    requires
        m >= 0,
        m * m <= norm2(v) < (m + 1) * (m + 1),
    ensures
        -m <= v.0 <= m,
        -m <= v.1 <= m,
        -m <= v.2 <= m,
{
    assert(-m <= v.0 <= m && -m <= v.1 <= m && -m <= v.2 <= m) by (nonlinear_arith)
        requires
            m >= 0,
            m * m <= v.0 * v.0 + v.1 * v.1 + v.2 * v.2 < (m + 1) * (m + 1);
}

impl Vec3 {
    pub open spec fn bounded(&self) -> bool {
        fits(self.0 as int) && fits(self.1 as int) && fits(self.2 as int)
    }

    pub fn add(&self, rhs: &Vec3) -> (r: Vec3)
        requires
            self.bounded(),
            rhs.bounded(),
        ensures
            r.0 == self.0 + rhs.0,
            r.1 == self.1 + rhs.1,
            r.2 == self.2 + rhs.2,
    {
        Vec3(self.0 + rhs.0, self.1 + rhs.1, self.2 + rhs.2)
    }

    pub fn sub(&self, rhs: &Vec3) -> (r: Vec3)
        requires
            self.bounded(),
            rhs.bounded(),
        ensures
            r.0 == self.0 - rhs.0,
            r.1 == self.1 - rhs.1,
            r.2 == self.2 - rhs.2,
    {
        Vec3(self.0 - rhs.0, self.1 - rhs.1, self.2 - rhs.2)
    }

    /// Multiply every component by a scalar.
    pub fn scale(&self, k: i64) -> (r: Vec3)
        requires
            self.bounded(),
            fits(k as int),
        ensures
            r.0 == self.0 * k,
            r.1 == self.1 * k,
            r.2 == self.2 * k,
    {
        Vec3(mul_i64(self.0, k), mul_i64(self.1, k), mul_i64(self.2, k))
    }

    pub fn dot(&self, rhs: &Vec3) -> (r: i64)
        requires
            self.bounded(),
            rhs.bounded(),
        ensures
            r == dot3(*self, *rhs),
            -0x3000_0000_0000_0000 <= r <= 0x3000_0000_0000_0000,
    {
        mul_i64(self.0, rhs.0) + mul_i64(self.1, rhs.1) + mul_i64(self.2, rhs.2)
    }

    pub fn cross(&self, rhs: &Vec3) -> (r: Vec3)
        requires
            self.bounded(),
            rhs.bounded(),
        ensures
            r.0 == cross3(*self, *rhs).0,
            r.1 == cross3(*self, *rhs).1,
            r.2 == cross3(*self, *rhs).2,
    {
        Vec3(
            mul_i64(self.1, rhs.2) - mul_i64(self.2, rhs.1),
            mul_i64(self.2, rhs.0) - mul_i64(self.0, rhs.2),
            mul_i64(self.0, rhs.1) - mul_i64(self.1, rhs.0),
        )
    }

    /// The Euclidean length, rounded down to an integer.
    pub fn magnitude(&self) -> (r: i64)
        requires
            self.bounded(),
        ensures
            r == sqrt_val(norm2(*self)),
            r >= 0,
            r * r <= norm2(*self) < (r + 1) * (r + 1),
            norm2(*self) > 0 ==> r >= 1,
            r <= 0x8000_0000,
    {
        proof {
            lemma_norm2_nonneg(*self);
        }
        let n = self.dot(self);
        let r = isqrt(n as u64);
        proof {
            assert(r <= 0x8000_0000u64) by (nonlinear_arith)
                requires
                    r as int * r as int <= n as int,
                    n <= 0x3000_0000_0000_0000i64,
                    r >= 0;
            assert(n > 0 ==> r >= 1) by (nonlinear_arith)
                requires
                    (n as int) < (r as int + 1) * (r as int + 1),
                    r >= 0;
        }
        r as i64
    }

    /// The cosine of the angle between two vectors, in fixed point (so a
    /// cosine of 1 is `UNIT`), using the rounded-down magnitudes.  Its sign
    /// is the sign of the dot product.
    pub fn angle(&self, rhs: &Vec3) -> (r: i128)
        requires
            self.bounded(),
            rhs.bounded(),
            norm2(*self) > 0,
            norm2(*rhs) > 0,
        ensures
            r == UNIT * dot3(*self, *rhs) / (sqrt_val(norm2(*self)) * sqrt_val(norm2(*rhs))),
            r < 0 <==> dot3(*self, *rhs) < 0,
    {
        let m1 = self.magnitude();
        let m2 = rhs.magnitude();
        let d = self.dot(rhs);
        let num: i128 = mul_wide(UNIT, d);
        let den: i128 = mul_wide(m1, m2);
        proof {
            assert(1 <= m1 as int * m2 as int <= 0x4000_0000_0000_0000int) by (nonlinear_arith)
                requires
                    1 <= m1 <= 0x8000_0000i64,
                    1 <= m2 <= 0x8000_0000i64;
            lemma_div_sign(num as int, den as int);
        }
        div_i128(num, den)
    }

    /// Scale to length `UNIT` (length 1.0 in fixed point), rounding each
    /// component down.
    pub fn normalize(&self) -> (r: Vec3)
        requires
            self.bounded(),
            norm2(*self) > 0,
        ensures
            r.0 == self.0 * UNIT / sqrt_val(norm2(*self)),
            r.1 == self.1 * UNIT / sqrt_val(norm2(*self)),
            r.2 == self.2 * UNIT / sqrt_val(norm2(*self)),
            -UNIT <= r.0 <= UNIT,
            -UNIT <= r.1 <= UNIT,
            -UNIT <= r.2 <= UNIT,
            r.bounded(),
    {
        let m = self.magnitude();
        proof {
            lemma_component_le_sqrt(*self, m as int);
            lemma_norm_component_bound(self.0 as int, m as int);
            lemma_norm_component_bound(self.1 as int, m as int);
            lemma_norm_component_bound(self.2 as int, m as int);
        }
        Vec3(
            div_i64(mul_i64(self.0, UNIT), m),
            div_i64(mul_i64(self.1, UNIT), m),
            div_i64(mul_i64(self.2, UNIT), m),
        )
    }

    /// As `normalize`, for vectors whose components may be as large as
    /// a raw cross product's: the squared length is taken in 128 bits.
    pub fn normalize_wide(&self) -> (r: Vec3)
        requires
            -0x2000_0000_0000_0000 <= self.0 <= 0x2000_0000_0000_0000,
            -0x2000_0000_0000_0000 <= self.1 <= 0x2000_0000_0000_0000,
            -0x2000_0000_0000_0000 <= self.2 <= 0x2000_0000_0000_0000,
            norm2(*self) > 0,
        ensures
            r.0 == self.0 * UNIT / sqrt_val(norm2(*self)),
            r.1 == self.1 * UNIT / sqrt_val(norm2(*self)),
            r.2 == self.2 * UNIT / sqrt_val(norm2(*self)),
            -UNIT <= r.0 <= UNIT,
            -UNIT <= r.1 <= UNIT,
            -UNIT <= r.2 <= UNIT,
            r.bounded(),
    {
        let g = Ghost(0x2000_0000_0000_0000int);
        let n2: i128 = mul_bounded_i128(self.0 as i128, self.0 as i128, g, g)
            + mul_bounded_i128(self.1 as i128, self.1 as i128, g, g)
            + mul_bounded_i128(self.2 as i128, self.2 as i128, g, g);
        proof {
            lemma_norm2_nonneg(*self);
        }
        let m: u128 = crate::fixed::isqrt_u128(n2 as u128);
        proof {
            assert(m <= 0x4000_0000_0000_0000u128) by (nonlinear_arith)
                requires
                    m as int * m as int <= n2 as int,
                    n2 <= 0xC00_0000_0000_0000_0000_0000_0000_0000i128,
                    m >= 0;
            assert(n2 > 0 ==> m >= 1) by (nonlinear_arith)
                requires
                    (n2 as int) < (m as int + 1) * (m as int + 1),
                    m >= 0;
            assert(-(m as int) <= self.0 <= m as int && -(m as int) <= self.1 <= m as int
                && -(m as int) <= self.2 <= m as int) by (nonlinear_arith)
                requires
                    m >= 0,
                    m as int * m as int
                        <= self.0 * self.0 + self.1 * self.1 + self.2 * self.2
                        < (m as int + 1) * (m as int + 1);
            lemma_norm_component_bound(self.0 as int, m as int);
            lemma_norm_component_bound(self.1 as int, m as int);
            lemma_norm_component_bound(self.2 as int, m as int);
        }
        let gu = Ghost(0x1_0000_0000int);
        let x = div_i128(mul_bounded_i128(self.0 as i128, UNIT as i128, g, gu), m as i128);
        let y = div_i128(mul_bounded_i128(self.1 as i128, UNIT as i128, g, gu), m as i128);
        let z = div_i128(mul_bounded_i128(self.2 as i128, UNIT as i128, g, gu), m as i128);
        Vec3(x as i64, y as i64, z as i64)
    }

    /// The homogeneous form of a point, with `w` equal to one.
    pub fn to_point_vec4(&self) -> (r: Vec4)
        ensures
            r == (Vec4 { 0: self.0, 1: self.1, 2: self.2, 3: UNIT as i64 }),
    {
        Vec4(self.0, self.1, self.2, UNIT)
    }

    pub fn component_wise_mul(&self, rhs: &Vec3) -> (r: Vec3)
        requires
            self.bounded(),
            rhs.bounded(),
        ensures
            r.0 == self.0 * rhs.0,
            r.1 == self.1 * rhs.1,
            r.2 == self.2 * rhs.2,
    {
        Vec3(mul_i64(self.0, rhs.0), mul_i64(self.1, rhs.1), mul_i64(self.2, rhs.2))
    }
}

/// A component no longer than the magnitude scales to at most `UNIT`.
proof fn lemma_norm_component_bound(x: int, m: int)
    requires
        m >= 1,
        -m <= x <= m,
    ensures
        -UNIT <= x * UNIT / m <= UNIT,
{
    assert(-(m * UNIT) <= x * UNIT <= m * UNIT) by (nonlinear_arith)
        requires
            m >= 1,
            -m <= x <= m;
    vstd::arithmetic::div_mod::lemma_div_is_ordered(x * UNIT, m * (UNIT as int), m);
    vstd::arithmetic::div_mod::lemma_div_is_ordered(-(m * (UNIT as int)), x * UNIT, m);
    vstd::arithmetic::div_mod::lemma_div_multiples_vanish(UNIT as int, m);
    vstd::arithmetic::div_mod::lemma_div_multiples_vanish(-(UNIT as int), m);
    assert(m * (UNIT as int) == UNIT as int * m && -(m * (UNIT as int)) == (-(UNIT as int)) * m)
        by (nonlinear_arith);
}

/// A homogeneous point or direction.
#[derive(Clone, Copy, Debug, PartialEq, Eq, Structural)]
pub struct Vec4(pub i64, pub i64, pub i64, pub i64);

/// The 4-component dot product as a mathematical integer.
pub open spec fn dot4(a: Vec4, b: Vec4) -> int {
    a.0 * b.0 + a.1 * b.1 + a.2 * b.2 + a.3 * b.3
}

impl Vec4 {
    pub open spec fn bounded(&self) -> bool {
        fits(self.0 as int) && fits(self.1 as int) && fits(self.2 as int) && fits(self.3 as int)
    }

    /// Forget `w`.
    pub fn drop_fourth_component(&self) -> (r: Vec3)
        ensures
            r == (Vec3 { 0: self.0, 1: self.1, 2: self.2 }),
    {
        Vec3(self.0, self.1, self.2)
    }

    pub fn dot(&self, rhs: &Vec4) -> (r: i64)
        requires
            self.bounded(),
            rhs.bounded(),
        ensures
            r == dot4(*self, *rhs),
    {
        mul_i64(self.0, rhs.0) + mul_i64(self.1, rhs.1) + mul_i64(self.2, rhs.2)
            + mul_i64(self.3, rhs.3)
    }

    /// Dot the first three components against a 3-vector.
    pub fn dot3(&self, rhs: &Vec3) -> (r: i64)
        requires
            self.bounded(),
            rhs.bounded(),
        ensures
            r == self.0 * rhs.0 + self.1 * rhs.1 + self.2 * rhs.2,
    {
        mul_i64(self.0, rhs.0) + mul_i64(self.1, rhs.1) + mul_i64(self.2, rhs.2)
    }
}

/// A 3-by-3 matrix with named entries; `mRC` is row `R`, column `C`.
#[derive(Clone, Copy, Debug, PartialEq, Eq, Structural)]
pub struct Mat3 {
    pub m00: i64, pub m01: i64, pub m02: i64,
    pub m10: i64, pub m11: i64, pub m12: i64,
    pub m20: i64, pub m21: i64, pub m22: i64,
}

/// Entry selector for contracts over rows and columns.
pub open spec fn m3_entry(m: Mat3, r: int, c: int) -> int {
    if r == 0 {
        if c == 0 { m.m00 as int } else if c == 1 { m.m01 as int } else { m.m02 as int }
    } else if r == 1 {
        if c == 0 { m.m10 as int } else if c == 1 { m.m11 as int } else { m.m12 as int }
    } else {
        if c == 0 { m.m20 as int } else if c == 1 { m.m21 as int } else { m.m22 as int }
    }
}

impl Mat3 {
    pub fn new(
        m00: i64, m01: i64, m02: i64,
        m10: i64, m11: i64, m12: i64,
        m20: i64, m21: i64, m22: i64,
    ) -> (r: Mat3)
        ensures
            r == (Mat3 { m00, m01, m02, m10, m11, m12, m20, m21, m22 }),
    {
        Mat3 { m00, m01, m02, m10, m11, m12, m20, m21, m22 }
    }

    pub fn row(&self, i: u8) -> (r: Vec3)
        requires
            i < 3,
        ensures
            r.0 == m3_entry(*self, i as int, 0),
            r.1 == m3_entry(*self, i as int, 1),
            r.2 == m3_entry(*self, i as int, 2),
    {
        if i == 0 {
            Vec3(self.m00, self.m01, self.m02)
        } else if i == 1 {
            Vec3(self.m10, self.m11, self.m12)
        } else {
            Vec3(self.m20, self.m21, self.m22)
        }
    }

    pub fn col(&self, i: u8) -> (r: Vec3)
        requires
            i < 3,
        ensures
            r.0 == m3_entry(*self, 0, i as int),
            r.1 == m3_entry(*self, 1, i as int),
            r.2 == m3_entry(*self, 2, i as int),
    {
        if i == 0 {
            Vec3(self.m00, self.m10, self.m20)
        } else if i == 1 {
            Vec3(self.m01, self.m11, self.m21)
        } else {
            Vec3(self.m02, self.m12, self.m22)
        }
    }
}

/// A 4-by-4 matrix with named entries; `mRC` is row `R`, column `C`.
#[derive(Clone, Copy, Debug, PartialEq, Eq, Structural)]
pub struct Mat4 {
    pub m00: i64, pub m01: i64, pub m02: i64, pub m03: i64,
    pub m10: i64, pub m11: i64, pub m12: i64, pub m13: i64,
    pub m20: i64, pub m21: i64, pub m22: i64, pub m23: i64,
    pub m30: i64, pub m31: i64, pub m32: i64, pub m33: i64,
}

/// Entry selector for contracts over rows and columns.
pub open spec fn m4_entry(m: Mat4, r: int, c: int) -> int {
    if r == 0 {
        if c == 0 { m.m00 as int } else if c == 1 { m.m01 as int }
        else if c == 2 { m.m02 as int } else { m.m03 as int }
    } else if r == 1 {
        if c == 0 { m.m10 as int } else if c == 1 { m.m11 as int }
        else if c == 2 { m.m12 as int } else { m.m13 as int }
    } else if r == 2 {
        if c == 0 { m.m20 as int } else if c == 1 { m.m21 as int }
        else if c == 2 { m.m22 as int } else { m.m23 as int }
    } else {
        if c == 0 { m.m30 as int } else if c == 1 { m.m31 as int }
        else if c == 2 { m.m32 as int } else { m.m33 as int }
    }
}

/// Every entry small enough for the product arithmetic.
pub open spec fn m4_bounded(m: Mat4) -> bool {
    &&& fits(m.m00 as int) && fits(m.m01 as int) && fits(m.m02 as int) && fits(m.m03 as int)
    &&& fits(m.m10 as int) && fits(m.m11 as int) && fits(m.m12 as int) && fits(m.m13 as int)
    &&& fits(m.m20 as int) && fits(m.m21 as int) && fits(m.m22 as int) && fits(m.m23 as int)
    &&& fits(m.m30 as int) && fits(m.m31 as int) && fits(m.m32 as int) && fits(m.m33 as int)
}

/// One entry of the fixed-point matrix product: the integer row-by-column
/// sum, rescaled by `UNIT` and rounded down.
pub open spec fn m4_mul_entry(a: Mat4, b: Mat4, r: int, c: int) -> int {
    (m4_entry(a, r, 0) * m4_entry(b, 0, c) + m4_entry(a, r, 1) * m4_entry(b, 1, c)
        + m4_entry(a, r, 2) * m4_entry(b, 2, c) + m4_entry(a, r, 3) * m4_entry(b, 3, c))
        / (UNIT as int)
}

/// One component of the fixed-point matrix-vector product.
pub open spec fn m4_apply_entry(m: Mat4, v: Vec4, r: int) -> int {
    (m4_entry(m, r, 0) * v.0 + m4_entry(m, r, 1) * v.1 + m4_entry(m, r, 2) * v.2
        + m4_entry(m, r, 3) * v.3) / (UNIT as int)
}

/// The determinant of the raw integer entries, by the two-by-two cofactor
/// scheme the executable code follows.
pub open spec fn m4_det(m: Mat4) -> int {
    let b00 = m.m00 * m.m11 - m.m01 * m.m10;
    let b01 = m.m00 * m.m12 - m.m02 * m.m10;
    let b02 = m.m00 * m.m13 - m.m03 * m.m10;
    let b03 = m.m01 * m.m12 - m.m02 * m.m11;
    let b04 = m.m01 * m.m13 - m.m03 * m.m11;
    let b05 = m.m02 * m.m13 - m.m03 * m.m12;
    let b06 = m.m20 * m.m31 - m.m21 * m.m30;
    let b07 = m.m20 * m.m32 - m.m22 * m.m30;
    let b08 = m.m20 * m.m33 - m.m23 * m.m30;
    let b09 = m.m21 * m.m32 - m.m22 * m.m31;
    let b10 = m.m21 * m.m33 - m.m23 * m.m31;
    let b11 = m.m22 * m.m33 - m.m23 * m.m32;
    b00 * b11 - b01 * b10 + b02 * b09 + b03 * b08 - b04 * b07 + b05 * b06
}

/// One entry of the adjugate of the raw integer entries.
pub open spec fn m4_adj(m: Mat4, r: int, c: int) -> int {
    let b00 = m.m00 * m.m11 - m.m01 * m.m10;
    let b01 = m.m00 * m.m12 - m.m02 * m.m10;
    let b02 = m.m00 * m.m13 - m.m03 * m.m10;
    let b03 = m.m01 * m.m12 - m.m02 * m.m11;
    let b04 = m.m01 * m.m13 - m.m03 * m.m11;
    let b05 = m.m02 * m.m13 - m.m03 * m.m12;
    let b06 = m.m20 * m.m31 - m.m21 * m.m30;
    let b07 = m.m20 * m.m32 - m.m22 * m.m30;
    let b08 = m.m20 * m.m33 - m.m23 * m.m30;
    let b09 = m.m21 * m.m32 - m.m22 * m.m31;
    let b10 = m.m21 * m.m33 - m.m23 * m.m31;
    let b11 = m.m22 * m.m33 - m.m23 * m.m32;
    if r == 0 {
        if c == 0 { m.m11 * b11 - m.m12 * b10 + m.m13 * b09 }
        else if c == 1 { m.m02 * b10 - m.m01 * b11 - m.m03 * b09 }
        else if c == 2 { m.m31 * b05 - m.m32 * b04 + m.m33 * b03 }
        else { m.m22 * b04 - m.m21 * b05 - m.m23 * b03 }
    } else if r == 1 {
        if c == 0 { m.m12 * b08 - m.m10 * b11 - m.m13 * b07 }
        else if c == 1 { m.m00 * b11 - m.m02 * b08 + m.m03 * b07 }
        else if c == 2 { m.m32 * b02 - m.m30 * b05 - m.m33 * b01 }
        else { m.m20 * b05 - m.m22 * b02 + m.m23 * b01 }
    } else if r == 2 {
        if c == 0 { m.m10 * b10 - m.m11 * b08 + m.m13 * b06 }
        else if c == 1 { m.m01 * b08 - m.m00 * b10 - m.m03 * b06 }
        else if c == 2 { m.m30 * b04 - m.m31 * b02 + m.m33 * b00 }
        else { m.m21 * b02 - m.m20 * b04 - m.m23 * b00 }
    } else {
        if c == 0 { m.m11 * b07 - m.m10 * b09 - m.m12 * b06 }
        else if c == 1 { m.m00 * b09 - m.m01 * b07 + m.m02 * b06 }
        else if c == 2 { m.m31 * b01 - m.m30 * b03 - m.m32 * b00 }
        else { m.m20 * b03 - m.m21 * b01 + m.m22 * b00 }
    }
}

/// One entry of the fixed-point inverse: the adjugate rescaled so the
/// result is again `UNIT`-scaled, divided by the determinant.
pub open spec fn m4_inv_entry(m: Mat4, r: int, c: int) -> int {
    m4_adj(m, r, c) * UNIT * UNIT / m4_det(m)
}

/// The scale matrix as a value.
pub open spec fn m4_scale(s: Vec3) -> Mat4 {
    Mat4 {
        m00: s.0, m01: 0i64, m02: 0i64, m03: 0i64,
        m10: 0i64, m11: s.1, m12: 0i64, m13: 0i64,
        m20: 0i64, m21: 0i64, m22: s.2, m23: 0i64,
        m30: 0i64, m31: 0i64, m32: 0i64, m33: UNIT as i64,
    }
}

/// The fixed-point matrix product as a value; meaningful when every
/// entry of the product fits a 64-bit scalar, which `Mat4::mul` callers
/// establish.
pub open spec fn m4_mul_val(a: Mat4, b: Mat4) -> Mat4 {
    Mat4 {
        m00: m4_mul_entry(a, b, 0, 0) as i64, m01: m4_mul_entry(a, b, 0, 1) as i64,
        m02: m4_mul_entry(a, b, 0, 2) as i64, m03: m4_mul_entry(a, b, 0, 3) as i64,
        m10: m4_mul_entry(a, b, 1, 0) as i64, m11: m4_mul_entry(a, b, 1, 1) as i64,
        m12: m4_mul_entry(a, b, 1, 2) as i64, m13: m4_mul_entry(a, b, 1, 3) as i64,
        m20: m4_mul_entry(a, b, 2, 0) as i64, m21: m4_mul_entry(a, b, 2, 1) as i64,
        m22: m4_mul_entry(a, b, 2, 2) as i64, m23: m4_mul_entry(a, b, 2, 3) as i64,
        m30: m4_mul_entry(a, b, 3, 0) as i64, m31: m4_mul_entry(a, b, 3, 1) as i64,
        m32: m4_mul_entry(a, b, 3, 2) as i64, m33: m4_mul_entry(a, b, 3, 3) as i64,
    }
}

/// The rotation about the vertical axis through `point` as a value.
pub open spec fn m4_rotate_y(sin: i64, cos: i64, point: Vec3) -> Mat4 {
    Mat4 {
        m00: cos, m01: 0i64, m02: (-(sin as int)) as i64,
        m03: (point.0 - (cos * point.0 - sin * point.2) / (UNIT as int)) as i64,
        m10: 0i64, m11: UNIT as i64, m12: 0i64, m13: 0i64,
        m20: sin, m21: 0i64, m22: cos,
        m23: (point.2 - (sin * point.0 + cos * point.2) / (UNIT as int)) as i64,
        m30: 0i64, m31: 0i64, m32: 0i64, m33: UNIT as i64,
    }
}

/// The translation matrix as a value.
pub open spec fn m4_translate(t: Vec3) -> Mat4 {
    Mat4 {
        m00: UNIT as i64, m01: 0i64, m02: 0i64, m03: t.0,
        m10: 0i64, m11: UNIT as i64, m12: 0i64, m13: t.1,
        m20: 0i64, m21: 0i64, m22: UNIT as i64, m23: t.2,
        m30: 0i64, m31: 0i64, m32: 0i64, m33: UNIT as i64,
    }
}

/// A matrix whose entries are all in range, entry by entry, is bounded.
pub proof fn lemma_entries_bounded(m: Mat4)
    requires
        forall|i: int, j: int|
            0 <= i < 4 && 0 <= j < 4 ==> fits(#[trigger] m4_entry(m, i, j)),
    ensures
        m4_bounded(m),
{
    assert(fits(m4_entry(m, 0, 0)) && fits(m4_entry(m, 0, 1)) && fits(m4_entry(m, 0, 2))
        && fits(m4_entry(m, 0, 3)));
    assert(fits(m4_entry(m, 1, 0)) && fits(m4_entry(m, 1, 1)) && fits(m4_entry(m, 1, 2))
        && fits(m4_entry(m, 1, 3)));
    assert(fits(m4_entry(m, 2, 0)) && fits(m4_entry(m, 2, 1)) && fits(m4_entry(m, 2, 2))
        && fits(m4_entry(m, 2, 3)));
    assert(fits(m4_entry(m, 3, 0)) && fits(m4_entry(m, 3, 1)) && fits(m4_entry(m, 3, 2))
        && fits(m4_entry(m, 3, 3)));
}

impl Mat4 {
    pub fn new(
        m00: i64, m01: i64, m02: i64, m03: i64,
        m10: i64, m11: i64, m12: i64, m13: i64,
        m20: i64, m21: i64, m22: i64, m23: i64,
        m30: i64, m31: i64, m32: i64, m33: i64,
    ) -> (r: Mat4)
        ensures
            r == (Mat4 {
                m00, m01, m02, m03, m10, m11, m12, m13,
                m20, m21, m22, m23, m30, m31, m32, m33,
            }),
    {
        Mat4 {
            m00, m01, m02, m03, m10, m11, m12, m13,
            m20, m21, m22, m23, m30, m31, m32, m33,
        }
    }

    /// The identity: ones (that is, `UNIT`) on the diagonal.
    pub fn identity() -> (r: Mat4)
        ensures
            r == (Mat4 {
                m00: UNIT as i64, m01: 0i64, m02: 0i64, m03: 0i64,
                m10: 0i64, m11: UNIT as i64, m12: 0i64, m13: 0i64,
                m20: 0i64, m21: 0i64, m22: UNIT as i64, m23: 0i64,
                m30: 0i64, m31: 0i64, m32: 0i64, m33: UNIT as i64,
            }),
            m4_bounded(r),
    {
        Mat4 {
            m00: UNIT, m01: 0, m02: 0, m03: 0,
            m10: 0, m11: UNIT, m12: 0, m13: 0,
            m20: 0, m21: 0, m22: UNIT, m23: 0,
            m30: 0, m31: 0, m32: 0, m33: UNIT,
        }
    }

    pub fn row(&self, i: u8) -> (r: Vec4)
        requires
            i < 4,
        ensures
            r.0 == m4_entry(*self, i as int, 0),
            r.1 == m4_entry(*self, i as int, 1),
            r.2 == m4_entry(*self, i as int, 2),
            r.3 == m4_entry(*self, i as int, 3),
    {
        if i == 0 {
            Vec4(self.m00, self.m01, self.m02, self.m03)
        } else if i == 1 {
            Vec4(self.m10, self.m11, self.m12, self.m13)
        } else if i == 2 {
            Vec4(self.m20, self.m21, self.m22, self.m23)
        } else {
            Vec4(self.m30, self.m31, self.m32, self.m33)
        }
    }

    pub fn col(&self, i: u8) -> (r: Vec4)
        requires
            i < 4,
        ensures
            r.0 == m4_entry(*self, 0, i as int),
            r.1 == m4_entry(*self, 1, i as int),
            r.2 == m4_entry(*self, 2, i as int),
            r.3 == m4_entry(*self, 3, i as int),
    {
        if i == 0 {
            Vec4(self.m00, self.m10, self.m20, self.m30)
        } else if i == 1 {
            Vec4(self.m01, self.m11, self.m21, self.m31)
        } else if i == 2 {
            Vec4(self.m02, self.m12, self.m22, self.m32)
        } else {
            Vec4(self.m03, self.m13, self.m23, self.m33)
        }
    }

    /// Fixed-point matrix product.
    #[verifier::rlimit(50)]
    pub fn mul(&self, rhs: &Mat4) -> (r: Mat4)
        requires
            m4_bounded(*self),
            m4_bounded(*rhs),
        ensures
            forall|i: int, j: int|
                0 <= i < 4 && 0 <= j < 4 ==> m4_entry(r, i, j) == m4_mul_entry(*self, *rhs, i, j),
            r == m4_mul_val(*self, *rhs),
    {
        Mat4 {
            m00: div_i64(mul_i64(self.m00, rhs.m00) + mul_i64(self.m01, rhs.m10)
                + mul_i64(self.m02, rhs.m20) + mul_i64(self.m03, rhs.m30), UNIT),
            m01: div_i64(mul_i64(self.m00, rhs.m01) + mul_i64(self.m01, rhs.m11)
                + mul_i64(self.m02, rhs.m21) + mul_i64(self.m03, rhs.m31), UNIT),
            m02: div_i64(mul_i64(self.m00, rhs.m02) + mul_i64(self.m01, rhs.m12)
                + mul_i64(self.m02, rhs.m22) + mul_i64(self.m03, rhs.m32), UNIT),
            m03: div_i64(mul_i64(self.m00, rhs.m03) + mul_i64(self.m01, rhs.m13)
                + mul_i64(self.m02, rhs.m23) + mul_i64(self.m03, rhs.m33), UNIT),
            m10: div_i64(mul_i64(self.m10, rhs.m00) + mul_i64(self.m11, rhs.m10)
                + mul_i64(self.m12, rhs.m20) + mul_i64(self.m13, rhs.m30), UNIT),
            m11: div_i64(mul_i64(self.m10, rhs.m01) + mul_i64(self.m11, rhs.m11)
                + mul_i64(self.m12, rhs.m21) + mul_i64(self.m13, rhs.m31), UNIT),
            m12: div_i64(mul_i64(self.m10, rhs.m02) + mul_i64(self.m11, rhs.m12)
                + mul_i64(self.m12, rhs.m22) + mul_i64(self.m13, rhs.m32), UNIT),
            m13: div_i64(mul_i64(self.m10, rhs.m03) + mul_i64(self.m11, rhs.m13)
                + mul_i64(self.m12, rhs.m23) + mul_i64(self.m13, rhs.m33), UNIT),
            m20: div_i64(mul_i64(self.m20, rhs.m00) + mul_i64(self.m21, rhs.m10)
                + mul_i64(self.m22, rhs.m20) + mul_i64(self.m23, rhs.m30), UNIT),
            m21: div_i64(mul_i64(self.m20, rhs.m01) + mul_i64(self.m21, rhs.m11)
                + mul_i64(self.m22, rhs.m21) + mul_i64(self.m23, rhs.m31), UNIT),
            m22: div_i64(mul_i64(self.m20, rhs.m02) + mul_i64(self.m21, rhs.m12)
                + mul_i64(self.m22, rhs.m22) + mul_i64(self.m23, rhs.m32), UNIT),
            m23: div_i64(mul_i64(self.m20, rhs.m03) + mul_i64(self.m21, rhs.m13)
                + mul_i64(self.m22, rhs.m23) + mul_i64(self.m23, rhs.m33), UNIT),
            m30: div_i64(mul_i64(self.m30, rhs.m00) + mul_i64(self.m31, rhs.m10)
                + mul_i64(self.m32, rhs.m20) + mul_i64(self.m33, rhs.m30), UNIT),
            m31: div_i64(mul_i64(self.m30, rhs.m01) + mul_i64(self.m31, rhs.m11)
                + mul_i64(self.m32, rhs.m21) + mul_i64(self.m33, rhs.m31), UNIT),
            m32: div_i64(mul_i64(self.m30, rhs.m02) + mul_i64(self.m31, rhs.m12)
                + mul_i64(self.m32, rhs.m22) + mul_i64(self.m33, rhs.m32), UNIT),
            m33: div_i64(mul_i64(self.m30, rhs.m03) + mul_i64(self.m31, rhs.m13)
                + mul_i64(self.m32, rhs.m23) + mul_i64(self.m33, rhs.m33), UNIT),
        }
    }

    /// Fixed-point matrix-vector product.
    pub fn mul_vec4(&self, v: &Vec4) -> (r: Vec4)
        requires
            m4_bounded(*self),
            v.bounded(),
        ensures
            r.0 == m4_apply_entry(*self, *v, 0),
            r.1 == m4_apply_entry(*self, *v, 1),
            r.2 == m4_apply_entry(*self, *v, 2),
            r.3 == m4_apply_entry(*self, *v, 3),
    {
        Vec4(
            div_i64(mul_i64(self.m00, v.0) + mul_i64(self.m01, v.1)
                + mul_i64(self.m02, v.2) + mul_i64(self.m03, v.3), UNIT),
            div_i64(mul_i64(self.m10, v.0) + mul_i64(self.m11, v.1)
                + mul_i64(self.m12, v.2) + mul_i64(self.m13, v.3), UNIT),
            div_i64(mul_i64(self.m20, v.0) + mul_i64(self.m21, v.1)
                + mul_i64(self.m22, v.2) + mul_i64(self.m23, v.3), UNIT),
            div_i64(mul_i64(self.m30, v.0) + mul_i64(self.m31, v.1)
                + mul_i64(self.m32, v.2) + mul_i64(self.m33, v.3), UNIT),
        )
    }

    /// Determinant of the raw entries, exact in 128 bits.
    #[verifier::rlimit(50)]
    pub fn det(&self) -> (r: i128)
        requires
            m4_bounded(*self),
        ensures
            r == m4_det(*self),
            -0x1800_0000_0000_0000_0000_0000_0000_0000 <= r
                <= 0x1800_0000_0000_0000_0000_0000_0000_0000,
    {
        let b00 = mul_i64(self.m00, self.m11) - mul_i64(self.m01, self.m10);
        let b01 = mul_i64(self.m00, self.m12) - mul_i64(self.m02, self.m10);
        let b02 = mul_i64(self.m00, self.m13) - mul_i64(self.m03, self.m10);
        let b03 = mul_i64(self.m01, self.m12) - mul_i64(self.m02, self.m11);
        let b04 = mul_i64(self.m01, self.m13) - mul_i64(self.m03, self.m11);
        let b05 = mul_i64(self.m02, self.m13) - mul_i64(self.m03, self.m12);
        let b06 = mul_i64(self.m20, self.m31) - mul_i64(self.m21, self.m30);
        let b07 = mul_i64(self.m20, self.m32) - mul_i64(self.m22, self.m30);
        let b08 = mul_i64(self.m20, self.m33) - mul_i64(self.m23, self.m30);
        let b09 = mul_i64(self.m21, self.m32) - mul_i64(self.m22, self.m31);
        let b10 = mul_i64(self.m21, self.m33) - mul_i64(self.m23, self.m31);
        let b11 = mul_i64(self.m22, self.m33) - mul_i64(self.m23, self.m32);
        let g = Ghost(0x2000_0000_0000_0000int);
        mul_bounded_i128(b00 as i128, b11 as i128, g, g)
            - mul_bounded_i128(b01 as i128, b10 as i128, g, g)
            + mul_bounded_i128(b02 as i128, b09 as i128, g, g)
            + mul_bounded_i128(b03 as i128, b08 as i128, g, g)
            - mul_bounded_i128(b04 as i128, b07 as i128, g, g)
            + mul_bounded_i128(b05 as i128, b06 as i128, g, g)
    }

    /// The fixed-point inverse, or `None` exactly when the determinant of
    /// the raw entries is zero.
    #[verifier::rlimit(100)]
    pub fn invert(&self) -> (r: Option<Mat4>)
        requires
            m4_bounded(*self),
            m4_det(*self) != 0 ==> forall|i: int, j: int|
                0 <= i < 4 && 0 <= j < 4
                    ==> i64::MIN <= #[trigger] m4_inv_entry(*self, i, j) <= i64::MAX,
        ensures
            r is Some <==> m4_det(*self) != 0,
            r matches Some(mi) ==> forall|i: int, j: int|
                0 <= i < 4 && 0 <= j < 4 ==> m4_entry(mi, i, j) == m4_inv_entry(*self, i, j),
    {
        let det = self.det();
        if det == 0 {
            return None;
        }

        let b00 = mul_i64(self.m00, self.m11) - mul_i64(self.m01, self.m10);
        let b01 = mul_i64(self.m00, self.m12) - mul_i64(self.m02, self.m10);
        let b02 = mul_i64(self.m00, self.m13) - mul_i64(self.m03, self.m10);
        let b03 = mul_i64(self.m01, self.m12) - mul_i64(self.m02, self.m11);
        let b04 = mul_i64(self.m01, self.m13) - mul_i64(self.m03, self.m11);
        let b05 = mul_i64(self.m02, self.m13) - mul_i64(self.m03, self.m12);
        let b06 = mul_i64(self.m20, self.m31) - mul_i64(self.m21, self.m30);
        let b07 = mul_i64(self.m20, self.m32) - mul_i64(self.m22, self.m30);
        let b08 = mul_i64(self.m20, self.m33) - mul_i64(self.m23, self.m30);
        let b09 = mul_i64(self.m21, self.m32) - mul_i64(self.m22, self.m31);
        let b10 = mul_i64(self.m21, self.m33) - mul_i64(self.m23, self.m31);
        let b11 = mul_i64(self.m22, self.m33) - mul_i64(self.m23, self.m32);

        let ea = Ghost(0x4000_0000int);
        let eb = Ghost(0x2000_0000_0000_0000int);

        let n00 = mul_bounded_i128(self.m11 as i128, b11 as i128, ea, eb)
            - mul_bounded_i128(self.m12 as i128, b10 as i128, ea, eb)
            + mul_bounded_i128(self.m13 as i128, b09 as i128, ea, eb);
        let n01 = mul_bounded_i128(self.m02 as i128, b10 as i128, ea, eb)
            - mul_bounded_i128(self.m01 as i128, b11 as i128, ea, eb)
            - mul_bounded_i128(self.m03 as i128, b09 as i128, ea, eb);
        let n02 = mul_bounded_i128(self.m31 as i128, b05 as i128, ea, eb)
            - mul_bounded_i128(self.m32 as i128, b04 as i128, ea, eb)
            + mul_bounded_i128(self.m33 as i128, b03 as i128, ea, eb);
        let n03 = mul_bounded_i128(self.m22 as i128, b04 as i128, ea, eb)
            - mul_bounded_i128(self.m21 as i128, b05 as i128, ea, eb)
            - mul_bounded_i128(self.m23 as i128, b03 as i128, ea, eb);
        let n10 = mul_bounded_i128(self.m12 as i128, b08 as i128, ea, eb)
            - mul_bounded_i128(self.m10 as i128, b11 as i128, ea, eb)
            - mul_bounded_i128(self.m13 as i128, b07 as i128, ea, eb);
        let n11 = mul_bounded_i128(self.m00 as i128, b11 as i128, ea, eb)
            - mul_bounded_i128(self.m02 as i128, b08 as i128, ea, eb)
            + mul_bounded_i128(self.m03 as i128, b07 as i128, ea, eb);
        let n12 = mul_bounded_i128(self.m32 as i128, b02 as i128, ea, eb)
            - mul_bounded_i128(self.m30 as i128, b05 as i128, ea, eb)
            - mul_bounded_i128(self.m33 as i128, b01 as i128, ea, eb);
        let n13 = mul_bounded_i128(self.m20 as i128, b05 as i128, ea, eb)
            - mul_bounded_i128(self.m22 as i128, b02 as i128, ea, eb)
            + mul_bounded_i128(self.m23 as i128, b01 as i128, ea, eb);
        let n20 = mul_bounded_i128(self.m10 as i128, b10 as i128, ea, eb)
            - mul_bounded_i128(self.m11 as i128, b08 as i128, ea, eb)
            + mul_bounded_i128(self.m13 as i128, b06 as i128, ea, eb);
        let n21 = mul_bounded_i128(self.m01 as i128, b08 as i128, ea, eb)
            - mul_bounded_i128(self.m00 as i128, b10 as i128, ea, eb)
            - mul_bounded_i128(self.m03 as i128, b06 as i128, ea, eb);
        let n22 = mul_bounded_i128(self.m30 as i128, b04 as i128, ea, eb)
            - mul_bounded_i128(self.m31 as i128, b02 as i128, ea, eb)
            + mul_bounded_i128(self.m33 as i128, b00 as i128, ea, eb);
        let n23 = mul_bounded_i128(self.m21 as i128, b02 as i128, ea, eb)
            - mul_bounded_i128(self.m20 as i128, b04 as i128, ea, eb)
            - mul_bounded_i128(self.m23 as i128, b00 as i128, ea, eb);
        let n30 = mul_bounded_i128(self.m11 as i128, b07 as i128, ea, eb)
            - mul_bounded_i128(self.m10 as i128, b09 as i128, ea, eb)
            - mul_bounded_i128(self.m12 as i128, b06 as i128, ea, eb);
        let n31 = mul_bounded_i128(self.m00 as i128, b09 as i128, ea, eb)
            - mul_bounded_i128(self.m01 as i128, b07 as i128, ea, eb)
            + mul_bounded_i128(self.m02 as i128, b06 as i128, ea, eb);
        let n32 = mul_bounded_i128(self.m31 as i128, b01 as i128, ea, eb)
            - mul_bounded_i128(self.m30 as i128, b03 as i128, ea, eb)
            - mul_bounded_i128(self.m32 as i128, b00 as i128, ea, eb);
        let n33 = mul_bounded_i128(self.m20 as i128, b03 as i128, ea, eb)
            - mul_bounded_i128(self.m21 as i128, b01 as i128, ea, eb)
            + mul_bounded_i128(self.m22 as i128, b00 as i128, ea, eb);

        let e00 = div_i128(n00 * 0x1_0000_0000, det);
        let e01 = div_i128(n01 * 0x1_0000_0000, det);
        let e02 = div_i128(n02 * 0x1_0000_0000, det);
        let e03 = div_i128(n03 * 0x1_0000_0000, det);
        let e10 = div_i128(n10 * 0x1_0000_0000, det);
        let e11 = div_i128(n11 * 0x1_0000_0000, det);
        let e12 = div_i128(n12 * 0x1_0000_0000, det);
        let e13 = div_i128(n13 * 0x1_0000_0000, det);
        let e20 = div_i128(n20 * 0x1_0000_0000, det);
        let e21 = div_i128(n21 * 0x1_0000_0000, det);
        let e22 = div_i128(n22 * 0x1_0000_0000, det);
        let e23 = div_i128(n23 * 0x1_0000_0000, det);
        let e30 = div_i128(n30 * 0x1_0000_0000, det);
        let e31 = div_i128(n31 * 0x1_0000_0000, det);
        let e32 = div_i128(n32 * 0x1_0000_0000, det);
        let e33 = div_i128(n33 * 0x1_0000_0000, det);

        Some(Mat4 {
            m00: e00 as i64, m01: e01 as i64, m02: e02 as i64, m03: e03 as i64,
            m10: e10 as i64, m11: e11 as i64, m12: e12 as i64, m13: e13 as i64,
            m20: e20 as i64, m21: e21 as i64, m22: e22 as i64, m23: e23 as i64,
            m30: e30 as i64, m31: e31 as i64, m32: e32 as i64, m33: e33 as i64,
        })
    }

    /// Scaling by a vector on the diagonal.
    pub fn scale(s: Vec3) -> (r: Mat4)
        ensures
            r == m4_scale(s),
    {
        Mat4 {
            m00: s.0, m01: 0, m02: 0, m03: 0,
            m10: 0, m11: s.1, m12: 0, m13: 0,
            m20: 0, m21: 0, m22: s.2, m23: 0,
            m30: 0, m31: 0, m32: 0, m33: UNIT,
        }
    }

    /// Translation by a vector.
    pub fn translate(t: Vec3) -> (r: Mat4)
        ensures
            r == m4_translate(t),
    {
        Mat4 {
            m00: UNIT, m01: 0, m02: 0, m03: t.0,
            m10: 0, m11: UNIT, m12: 0, m13: t.1,
            m20: 0, m21: 0, m22: UNIT, m23: t.2,
            m30: 0, m31: 0, m32: 0, m33: UNIT,
        }
    }

    /// Rotation about the vertical axis through `point`, given the sine and
    /// cosine of the angle in fixed point.  The translation column is
    /// `point` minus the rotated `point`, so the matrix equals
    /// translate-to-`point` times the rotation times translate-back.
    pub fn rotate_y_axis(sin: i64, cos: i64, point: Vec3) -> (r: Mat4)
        requires
            -UNIT <= sin <= UNIT,
            -UNIT <= cos <= UNIT,
            point.bounded(),
        ensures
            r.m00 == cos && r.m01 == 0 && r.m02 == -sin,
            r.m10 == 0 && r.m11 == UNIT && r.m12 == 0,
            r.m20 == sin && r.m21 == 0 && r.m22 == cos,
            r.m30 == 0 && r.m31 == 0 && r.m32 == 0 && r.m33 == UNIT,
            r.m03 == point.0 - (cos * point.0 - sin * point.2) / (UNIT as int),
            r.m13 == 0,
            r.m23 == point.2 - (sin * point.0 + cos * point.2) / (UNIT as int),
            r == m4_rotate_y(sin, cos, point),
    {
        let tx = point.0 - div_i64(mul_i64(cos, point.0) - mul_i64(sin, point.2), UNIT);
        let tz = point.2 - div_i64(mul_i64(sin, point.0) + mul_i64(cos, point.2), UNIT);
        Mat4 {
            m00: cos, m01: 0, m02: -sin, m03: tx,
            m10: 0, m11: UNIT, m12: 0, m13: 0,
            m20: sin, m21: 0, m22: cos, m23: tz,
            m30: 0, m31: 0, m32: 0, m33: UNIT,
        }
    }

    /// Rotation about the depth axis through `point`, as `rotate_y_axis`.
    pub fn rotate_z_axis(sin: i64, cos: i64, point: Vec3) -> (r: Mat4)
        requires
            -UNIT <= sin <= UNIT,
            -UNIT <= cos <= UNIT,
            point.bounded(),
        ensures
            r.m00 == cos && r.m01 == -sin && r.m02 == 0,
            r.m10 == sin && r.m11 == cos && r.m12 == 0,
            r.m20 == 0 && r.m21 == 0 && r.m22 == UNIT,
            r.m30 == 0 && r.m31 == 0 && r.m32 == 0 && r.m33 == UNIT,
            r.m03 == point.0 - (cos * point.0 - sin * point.1) / (UNIT as int),
            r.m13 == point.1 - (sin * point.0 + cos * point.1) / (UNIT as int),
            r.m23 == 0,
    {
        let tx = point.0 - div_i64(mul_i64(cos, point.0) - mul_i64(sin, point.1), UNIT);
        let ty = point.1 - div_i64(mul_i64(sin, point.0) + mul_i64(cos, point.1), UNIT);
        Mat4 {
            m00: cos, m01: -sin, m02: 0, m03: tx,
            m10: sin, m11: cos, m12: 0, m13: ty,
            m20: 0, m21: 0, m22: UNIT, m23: 0,
            m30: 0, m31: 0, m32: 0, m33: UNIT,
        }
    }

    /// The perspective projection through a frustum, every quotient rounded
    /// down.
    pub fn perspective(right: i64, left: i64, bot: i64, top: i64, near: i64, far: i64)
        -> (r: Mat4)
        requires
            fits(right as int), fits(left as int), fits(bot as int),
            fits(top as int), fits(near as int), fits(far as int),
            right != left,
            bot != top,
            far != near,
        ensures
            r.m00 == 2 * near * UNIT / (right - left) as int,
            r.m02 == -(right + left) * UNIT / (right - left) as int,
            r.m11 == 2 * near * UNIT / (bot - top) as int,
            r.m12 == -(bot + top) * UNIT / (bot - top) as int,
            r.m22 == far * UNIT / (far - near) as int,
            r.m23 == -(far * near) / (far - near) as int,
            r.m01 == 0 && r.m03 == 0 && r.m10 == 0 && r.m13 == 0,
            r.m20 == 0 && r.m21 == 0,
            r.m30 == 0 && r.m31 == 0 && r.m32 == UNIT && r.m33 == 0,
    {
        proof {
            lemma_div_bound(2 * near * UNIT, (right - left) as int);
            lemma_div_bound(-(right + left) * UNIT, (right - left) as int);
            lemma_div_bound(2 * near * UNIT, (bot - top) as int);
            lemma_div_bound(-(bot + top) * UNIT, (bot - top) as int);
            lemma_div_bound(far as int * UNIT, (far - near) as int);
            lemma_div_bound(-(far as int * near as int), (far - near) as int);
            assert(-0x1000_0000_0000_0000 <= far as int * near as int <= 0x1000_0000_0000_0000)
                by (nonlinear_arith)
                requires
                    -0x4000_0000 <= far <= 0x4000_0000,
                    -0x4000_0000 <= near <= 0x4000_0000;
        }
        let m00 = div_i128(2 * mul_wide(near, UNIT), (right - left) as i128);
        let m02 = div_i128(-mul_wide(right + left, UNIT), (right - left) as i128);
        let m11 = div_i128(2 * mul_wide(near, UNIT), (bot - top) as i128);
        let m12 = div_i128(-mul_wide(bot + top, UNIT), (bot - top) as i128);
        let m22 = div_i128(mul_wide(far, UNIT), (far - near) as i128);
        let m23 = div_i128(-mul_wide(far, near), (far - near) as i128);
        Mat4 {
            m00: m00 as i64, m01: 0, m02: m02 as i64, m03: 0,
            m10: 0, m11: m11 as i64, m12: m12 as i64, m13: 0,
            m20: 0, m21: 0, m22: m22 as i64, m23: m23 as i64,
            m30: 0, m31: 0, m32: UNIT, m33: 0,
        }
    }

    /// The scale from the logical viewport onto the pixel canvas; `cw` and
    /// `ch` are pixel counts, `vw` and `vh` fixed-point viewport sizes.
    pub fn viewport_to_canvas(cw: i64, ch: i64, vw: i64, vh: i64) -> (r: Mat4)
        requires
            0 < cw <= 0x8000,
            0 < ch <= 0x8000,
            0 < vw <= COORD_MAX,
            0 < vh <= COORD_MAX,
        ensures
            r.m00 == cw * UNIT * UNIT / (vw as int),
            r.m11 == ch * UNIT * UNIT / (vh as int),
            r.m22 == UNIT && r.m33 == UNIT,
            r.m01 == 0 && r.m02 == 0 && r.m03 == 0,
            r.m10 == 0 && r.m12 == 0 && r.m13 == 0,
            r.m20 == 0 && r.m21 == 0 && r.m23 == 0,
            r.m30 == 0 && r.m31 == 0 && r.m32 == 0,
    {
        proof {
            lemma_div_bound(cw as int * UNIT * UNIT, vw as int);
            lemma_div_bound(ch as int * UNIT * UNIT, vh as int);
        }
        let m00 = div_i128(mul_wide(cw, UNIT) * 65536, vw as i128);
        let m11 = div_i128(mul_wide(ch, UNIT) * 65536, vh as i128);
        Mat4 {
            m00: m00 as i64, m01: 0, m02: 0, m03: 0,
            m10: 0, m11: m11 as i64, m12: 0, m13: 0,
            m20: 0, m21: 0, m22: UNIT, m23: 0,
            m30: 0, m31: 0, m32: 0, m33: UNIT,
        }
    }
}

} // verus!
