//! Affine interpolation over an integer index domain.
//!
//! A `Lerp` carries two samples `(i0, d0)` and `(i1, d1)` and evaluates the
//! line through them; a `PiecewiseLerp` joins two `Lerp` segments at a shared
//! breakpoint, which is how the rasterizer follows the two short edges of a
//! triangle against the long one.  Indices are sorted (`i0 <= i1`) because
//! the rasterizer always interpolates along ascending screen rows.

use vstd::prelude::*;
use vstd::arithmetic::div_mod::{
    lemma_div_is_ordered, lemma_div_multiples_vanish, lemma_div_pos_is_pos,
    lemma_fundamental_div_mod,
};
use crate::fixed::{div_i64, fits};

verus! {

/// The value at `i` of the line through `(i0, d0)` and `(i1, d1)`, rounded
/// toward minus infinity; the constant `d0` when the domain is degenerate.
pub open spec fn lerp_at(i0: int, d0: int, i1: int, d1: int, i: int) -> int {
    if i1 == i0 {
        d0
    } else {
        d0 + (i - i0) * (d1 - d0) / (i1 - i0)
    }
}

/// For an index between two samples, the interpolated value stays between
/// the sampled values.
pub proof fn lemma_lerp_between(i0: int, d0: int, i1: int, d1: int, i: int)
    requires
        i0 <= i <= i1,
    ensures
        lerp_at(i0, d0, i1, d1, i) >= if d0 <= d1 { d0 } else { d1 },
        lerp_at(i0, d0, i1, d1, i) <= if d0 <= d1 { d1 } else { d0 },
{
    if i1 != i0 {
        let x = i - i0;
        let n = i1 - i0;
        let dd = d1 - d0;
        if dd >= 0 {
            assert(0 <= x * dd <= n * dd) by (nonlinear_arith)
                requires 0 <= x <= n, dd >= 0;
            lemma_div_pos_is_pos(x * dd, n);
            lemma_div_is_ordered(x * dd, n * dd, n);
            lemma_div_multiples_vanish(dd, n);
            assert(n * dd == dd * n) by (nonlinear_arith);
        } else {
            assert(n * dd <= x * dd <= 0) by (nonlinear_arith)
                requires 0 <= x <= n, dd < 0;
            lemma_div_is_ordered(n * dd, x * dd, n);
            lemma_div_is_ordered(x * dd, 0, n);
            lemma_div_multiples_vanish(dd, n);
            assert(n * dd == dd * n) by (nonlinear_arith);
        }
    }
}

/// Interpolation is exactly affine at the domain midpoint whenever both the
/// midpoint index and the midpoint value are whole numbers; integer rounding
/// makes it only approximate elsewhere.
pub proof fn lemma_lerp_affine_midpoint(i0: int, d0: int, i1: int, d1: int)
    requires
        i0 < i1,
        (i0 + i1) % 2 == 0,
        (d0 + d1) % 2 == 0,
    ensures
        lerp_at(i0, d0, i1, d1, (i0 + i1) / 2) == (d0 + d1) / 2,
{
    let m = (i0 + i1) / 2;
    let h = (d0 + d1) / 2;
    lemma_fundamental_div_mod(i0 + i1, 2);
    lemma_fundamental_div_mod(d0 + d1, 2);
    let n = i1 - i0;
    assert((m - i0) * (d1 - d0) == n * (h - d0)) by (nonlinear_arith)
        requires
            i0 + i1 == 2 * m,
            d0 + d1 == 2 * h,
            n == i1 - i0;
    lemma_div_multiples_vanish(h - d0, n);
    assert(n * (h - d0) == (h - d0) * n) by (nonlinear_arith);
}

/// On a degenerate domain the interpolator is the constant `d0`, whatever
/// index it is asked for.
pub proof fn lemma_lerp_degenerate(i0: int, d0: int, d1: int, i: int)
    ensures
        lerp_at(i0, d0, i0, d1, i) == d0,
{
}

/// The smaller of two values.
pub open spec fn min2(a: int, b: int) -> int {
    if a <= b { a } else { b }
}

/// The larger of two values.
pub open spec fn max2(a: int, b: int) -> int {
    if a <= b { b } else { a }
}

/// One affine segment: the line through `(i0, d0)` and `(i1, d1)`.
#[derive(Clone, Copy, Debug, PartialEq, Eq, Structural)]
pub struct Lerp {
    pub i0: i64,
    pub d0: i64,
    pub i1: i64,
    pub d1: i64,
}

impl Lerp {
    /// Samples in range and a sorted domain.
    pub open spec fn wf(&self) -> bool {
        &&& fits(self.i0 as int)
        &&& fits(self.d0 as int)
        &&& fits(self.i1 as int)
        &&& fits(self.d1 as int)
        &&& self.i0 <= self.i1
    }

    pub open spec fn at(&self, i: int) -> int {
        lerp_at(self.i0 as int, self.d0 as int, self.i1 as int, self.d1 as int, i)
    }

    pub fn new(i0: i64, d0: i64, i1: i64, d1: i64) -> (r: Lerp)
        requires
            fits(i0 as int),
            fits(d0 as int),
            fits(i1 as int),
            fits(d1 as int),
            i0 <= i1,
        ensures
            r == (Lerp { i0, d0, i1, d1 }),
            r.wf(),
    {
        Lerp { i0, d0, i1, d1 }
    }

    /// Evaluate the segment at `i`.  A degenerate segment accepts any
    /// index and returns `d0`; otherwise any index in the coordinate
    /// range is accepted, and inside the domain the result also stays
    /// between the two sample values.
    pub fn interpolate(&self, i: i64) -> (r: i64)
        requires
            self.wf(),
            self.i0 == self.i1 || fits(i as int),
        ensures
            r == self.at(i as int),
            self.i0 <= i <= self.i1 ==> fits(r as int)
                && r >= (if self.d0 <= self.d1 { self.d0 } else { self.d1 })
                && r <= (if self.d0 <= self.d1 { self.d1 } else { self.d0 }),
    {
        if self.i1 == self.i0 {
            return self.d0;
        }
        proof {
            assert((i - self.i0) * (self.d1 - self.d0) <= 0x4000_0000_0000_0000i64
                && (i - self.i0) * (self.d1 - self.d0) >= -0x4000_0000_0000_0000i64)
                by (nonlinear_arith)
                requires
                    -0x8000_0000i64 <= i - self.i0 <= 0x8000_0000i64,
                    -0x8000_0000i64 <= self.d1 - self.d0 <= 0x8000_0000i64;
            crate::fixed::lemma_div_bound(
                (i - self.i0) as int * (self.d1 - self.d0) as int, (self.i1 - self.i0) as int,
            );
            if self.i0 <= i <= self.i1 {
                lemma_lerp_between(
                    self.i0 as int, self.d0 as int, self.i1 as int, self.d1 as int, i as int,
                );
            }
        }
        let q = div_i64((i - self.i0) * (self.d1 - self.d0), self.i1 - self.i0);
        self.d0 + q
    }

    /// Evaluate at the middle of the domain.
    pub fn mid_value(&self) -> (r: i64)
        requires
            self.wf(),
        ensures
            r == self.at(self.i0 as int + (self.i1 - self.i0) as int / 2),
    {
        let i = self.i0 + (self.i1 - self.i0) / 2;
        self.interpolate(i)
    }
}

impl Default for Lerp {
    fn default() -> (r: Lerp)
        ensures
            r == (Lerp { i0: 0i64, d0: 0i64, i1: 0i64, d1: 0i64 }),
    {
        Lerp { i0: 0, d0: 0, i1: 0, d1: 0 }
    }
}

/// Two affine segments joined at a breakpoint: the first ends at the index
/// where the second begins.
#[derive(Clone, Copy, Debug, PartialEq, Eq, Structural)]
pub struct PiecewiseLerp {
    pub a: Lerp,
    pub b: Lerp,
}

impl PiecewiseLerp {
    pub open spec fn wf(&self) -> bool {
        &&& self.a.wf()
        &&& self.b.wf()
        &&& self.a.i1 == self.b.i0
    }

    /// Indices left of the breakpoint read the first segment, the rest the
    /// second.
    pub open spec fn at(&self, i: int) -> int {
        if i < self.a.i1 {
            self.a.at(i)
        } else {
            self.b.at(i)
        }
    }

    pub fn new(a: Lerp, b: Lerp) -> (r: PiecewiseLerp)
        requires
            a.wf(),
            b.wf(),
            a.i1 == b.i0,
        ensures
            r == (PiecewiseLerp { a, b }),
            r.wf(),
    {
        PiecewiseLerp { a, b }
    }

    /// The smallest sample value of either segment.
    pub open spec fn dlo(&self) -> int {
        min2(min2(self.a.d0 as int, self.a.d1 as int), min2(self.b.d0 as int, self.b.d1 as int))
    }

    /// The largest sample value of either segment.
    pub open spec fn dhi(&self) -> int {
        max2(max2(self.a.d0 as int, self.a.d1 as int), max2(self.b.d0 as int, self.b.d1 as int))
    }

    pub fn interpolate(&self, i: i64) -> (r: i64)
        requires
            self.wf(),
            self.a.i0 <= i <= self.b.i1 || self.a.i0 == self.b.i1,
        ensures
            r == self.at(i as int),
            fits(r as int),
            self.dlo() <= r <= self.dhi(),
    {
        if i < self.a.i1 {
            return self.a.interpolate(i);
        }
        self.b.interpolate(i)
    }

    /// Evaluate at the middle of the whole two-segment domain.
    pub fn mid_value(&self) -> (r: i64)
        requires
            self.wf(),
        ensures
            r == self.at(self.a.i0 as int + (self.b.i1 - self.a.i0) as int / 2),
    {
        let i = self.a.i0 + (self.b.i1 - self.a.i0) / 2;
        self.interpolate(i)
    }
}

/// Either a single segment or a two-segment path; the rasterizer holds one
/// of each for the two sides of a triangle.
#[derive(Clone, Copy, Debug, PartialEq, Eq, Structural)]
pub enum LerpKind {
    Lerp(Lerp),
    Piecewise(PiecewiseLerp),
}

impl LerpKind {
    pub open spec fn wf(&self) -> bool {
        match *self {
            LerpKind::Lerp(l) => l.wf(),
            LerpKind::Piecewise(p) => p.wf(),
        }
    }

    /// First index of the domain.
    pub open spec fn lo(&self) -> int {
        match *self {
            LerpKind::Lerp(l) => l.i0 as int,
            LerpKind::Piecewise(p) => p.a.i0 as int,
        }
    }

    /// Last index of the domain.
    pub open spec fn hi(&self) -> int {
        match *self {
            LerpKind::Lerp(l) => l.i1 as int,
            LerpKind::Piecewise(p) => p.b.i1 as int,
        }
    }

    pub open spec fn at(&self, i: int) -> int {
        match *self {
            LerpKind::Lerp(l) => l.at(i),
            LerpKind::Piecewise(p) => p.at(i),
        }
    }

    /// The smallest sample value of the underlying segments.
    pub open spec fn dlo(&self) -> int {
        match *self {
            LerpKind::Lerp(l) => min2(l.d0 as int, l.d1 as int),
            LerpKind::Piecewise(p) => p.dlo(),
        }
    }

    /// The largest sample value of the underlying segments.
    pub open spec fn dhi(&self) -> int {
        match *self {
            LerpKind::Lerp(l) => max2(l.d0 as int, l.d1 as int),
            LerpKind::Piecewise(p) => p.dhi(),
        }
    }

    pub fn interpolate(&self, i: i64) -> (r: i64)
        requires
            self.wf(),
            self.lo() <= i <= self.hi() || self.lo() == self.hi(),
        ensures
            r == self.at(i as int),
            fits(r as int),
            self.dlo() <= r <= self.dhi(),
    {
        match self {
            LerpKind::Lerp(l) => l.interpolate(i),
            LerpKind::Piecewise(p) => p.interpolate(i),
        }
    }
}

impl Default for LerpKind {
    fn default() -> (r: LerpKind)
        ensures
            r == LerpKind::Lerp(Lerp { i0: 0i64, d0: 0i64, i1: 0i64, d1: 0i64 }),
    {
        LerpKind::Lerp(Lerp { i0: 0, d0: 0, i1: 0, d1: 0 })
    }
}

/// The three edge segments of a triangle over sorted row indices: the two
/// short edges and the long one.
pub open spec fn edge_lerps(i0: int, d0: int, i1: int, d1: int, i2: int, d2: int)
    -> (Lerp, Lerp, Lerp) {
    (
        Lerp { i0: i0 as i64, d0: d0 as i64, i1: i1 as i64, d1: d1 as i64 },
        Lerp { i0: i1 as i64, d0: d1 as i64, i1: i2 as i64, d1: d2 as i64 },
        Lerp { i0: i0 as i64, d0: d0 as i64, i1: i2 as i64, d1: d2 as i64 },
    )
}

/// Build the two sides of a triangle for one attribute, placing the long
/// edge on the side `a02_is_left` says.
pub fn triangle_lerp(i0: i64, i1: i64, i2: i64, d0: i64, d1: i64, d2: i64, a02_is_left: bool)
    -> (r: (LerpKind, LerpKind))
    requires
        fits(i0 as int), fits(i1 as int), fits(i2 as int),
        fits(d0 as int), fits(d1 as int), fits(d2 as int),
        i0 <= i1 <= i2,
    ensures
        ({
            let (a01, a12, a02) = edge_lerps(
                i0 as int, d0 as int, i1 as int, d1 as int, i2 as int, d2 as int,
            );
            let piece = PiecewiseLerp { a: a01, b: a12 };
            r == if a02_is_left {
                (LerpKind::Lerp(a02), LerpKind::Piecewise(piece))
            } else {
                (LerpKind::Piecewise(piece), LerpKind::Lerp(a02))
            }
        }),
        r.0.wf() && r.1.wf(),
        r.0.lo() == i0 && r.0.hi() == i2 && r.1.lo() == i0 && r.1.hi() == i2,
{
    let a01 = Lerp::new(i0, d0, i1, d1);
    let a12 = Lerp::new(i1, d1, i2, d2);
    let a02 = Lerp::new(i0, d0, i2, d2);

    let a012 = PiecewiseLerp::new(a01, a12);

    if a02_is_left {
        (LerpKind::Lerp(a02), LerpKind::Piecewise(a012))
    } else {
        (LerpKind::Piecewise(a012), LerpKind::Lerp(a02))
    }
}

/// As `triangle_lerp`, but decide which side is geometrically left by
/// probing both interpolators at the middle of the domain; the long edge is
/// left exactly when its probe is smaller.
pub fn triangle_lerp_and_calculate_left(i0: i64, i1: i64, i2: i64, d0: i64, d1: i64, d2: i64)
    -> (r: (LerpKind, LerpKind, bool))
    requires
        fits(i0 as int), fits(i1 as int), fits(i2 as int),
        fits(d0 as int), fits(d1 as int), fits(d2 as int),
        i0 <= i1 <= i2,
    ensures
        ({
            let (a01, a12, a02) = edge_lerps(
                i0 as int, d0 as int, i1 as int, d1 as int, i2 as int, d2 as int,
            );
            let piece = PiecewiseLerp { a: a01, b: a12 };
            let mid = i0 as int + (i2 - i0) as int / 2;
            let left = a02.at(mid) < piece.at(mid);
            &&& r.2 == left
            &&& (r.0, r.1) == if left {
                (LerpKind::Lerp(a02), LerpKind::Piecewise(piece))
            } else {
                (LerpKind::Piecewise(piece), LerpKind::Lerp(a02))
            }
        }),
        r.0.wf() && r.1.wf(),
        r.0.lo() == i0 && r.0.hi() == i2 && r.1.lo() == i0 && r.1.hi() == i2,
{
    let a01 = Lerp::new(i0, d0, i1, d1);
    let a12 = Lerp::new(i1, d1, i2, d2);
    let a02 = Lerp::new(i0, d0, i2, d2);

    let a012 = PiecewiseLerp::new(a01, a12);

    let a02_is_left = a02.mid_value() < a012.mid_value();

    if a02_is_left {
        (LerpKind::Lerp(a02), LerpKind::Piecewise(a012), true)
    } else {
        (LerpKind::Piecewise(a012), LerpKind::Lerp(a02), false)
    }
}

} // verus!
