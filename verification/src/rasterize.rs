//! Colors and screen points.

use vstd::prelude::*;
use vstd::arithmetic::div_mod::{
    lemma_div_is_ordered, lemma_div_multiples_vanish, lemma_div_pos_is_pos,
};
use crate::fixed::{clamp_spec, clamp_i64, div_i64, fits, UNIT};
use crate::math::Vec3;

verus! {

/// An 8-bit RGB color.
#[derive(Clone, Copy, Debug, PartialEq, Eq, Structural)]
pub struct Color(pub u8, pub u8, pub u8);

/// An 8-bit channel mapped into fixed point, so 255 becomes `UNIT`.
pub open spec fn channel_to_scaled(c: int) -> int {
    c * UNIT / 255
}

/// A fixed-point value in `[0, 1]` mapped back to an 8-bit channel,
/// rounding to the nearest so the mapping inverts `channel_to_scaled`.
pub open spec fn scaled_to_channel(v: int) -> int {
    (clamp_spec(v, 0, UNIT as int) * 255 + 32768) / (UNIT as int)
}

impl Color {
    /// The channels as fixed-point values in `[0, 1]`.
    pub fn to_vec3_scaled(self) -> (r: Vec3)
        ensures
            r.0 == channel_to_scaled(self.0 as int),
            r.1 == channel_to_scaled(self.1 as int),
            r.2 == channel_to_scaled(self.2 as int),
            0 <= r.0 <= UNIT && 0 <= r.1 <= UNIT && 0 <= r.2 <= UNIT,
    {
        proof {
            lemma_channel_to_scaled_bounds(self.0 as int);
            lemma_channel_to_scaled_bounds(self.1 as int);
            lemma_channel_to_scaled_bounds(self.2 as int);
        }
        Vec3(
            div_i64(self.0 as i64 * UNIT, 255),
            div_i64(self.1 as i64 * UNIT, 255),
            div_i64(self.2 as i64 * UNIT, 255),
        )
    }

    /// Fixed-point channel values back to a color, clamped into `[0, 1]`
    /// first.
    pub fn from_vec3_scaled(v: Vec3) -> (r: Color)
        ensures
            r.0 == scaled_to_channel(v.0 as int),
            r.1 == scaled_to_channel(v.1 as int),
            r.2 == scaled_to_channel(v.2 as int),
    {
        proof {
            lemma_scaled_to_channel_bounds(v.0 as int);
            lemma_scaled_to_channel_bounds(v.1 as int);
            lemma_scaled_to_channel_bounds(v.2 as int);
        }
        let c0 = div_i64(clamp_i64(v.0, 0, UNIT) * 255 + 32768, UNIT);
        let c1 = div_i64(clamp_i64(v.1, 0, UNIT) * 255 + 32768, UNIT);
        let c2 = div_i64(clamp_i64(v.2, 0, UNIT) * 255 + 32768, UNIT);
        Color(c0 as u8, c1 as u8, c2 as u8)
    }
}

impl Default for Color {
    fn default() -> (r: Color)
        ensures
            r == (Color { 0: 0u8, 1: 0u8, 2: 0u8 }),
    {
        Color(0, 0, 0)
    }
}

proof fn lemma_channel_to_scaled_bounds(c: int)
    requires
        0 <= c <= 255,
    ensures
        0 <= channel_to_scaled(c) <= UNIT,
{
    lemma_div_pos_is_pos(c * UNIT, 255);
    lemma_div_is_ordered(c * UNIT, 255 * (UNIT as int), 255);
    lemma_div_multiples_vanish(UNIT as int, 255);
    assert(c * UNIT <= 255 * (UNIT as int) && 255 * (UNIT as int) == UNIT as int * 255)
        by (nonlinear_arith)
        requires 0 <= c <= 255;
}

proof fn lemma_scaled_to_channel_bounds(v: int)
    ensures
        0 <= scaled_to_channel(v) <= 255,
{
    let c = clamp_spec(v, 0, UNIT as int);
    lemma_div_pos_is_pos(c * 255 + 32768, UNIT as int);
    assert(c * 255 + 32768 <= 16744448) by (nonlinear_arith)
        requires 0 <= c <= UNIT;
    lemma_div_is_ordered(c * 255 + 32768, 16777215, UNIT as int);
    vstd::arithmetic::div_mod::lemma_fundamental_div_mod_converse(
        16777215, UNIT as int, 255, 65535,
    );
}

/// A point on the screen, in pixels, with the origin at the canvas center.
#[derive(Clone, Copy, Debug, PartialEq, Eq, Structural)]
pub struct Point {
    pub x: i64,
    pub y: i64,
}

impl Point {
    pub open spec fn bounded(&self) -> bool {
        fits(self.x as int) && fits(self.y as int)
    }

    pub fn new(x: i64, y: i64) -> (r: Point)
        ensures
            r == (Point { x, y }),
    {
        Point { x, y }
    }
}

} // verus!
