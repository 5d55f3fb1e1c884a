//! Light sources and the choice of shading model.

use vstd::prelude::*;
use crate::math::Vec3;

verus! {

/// A light source.  Intensities are fixed point, so `UNIT` is a full
/// intensity of 1.0.  Only the directional variant is computed by the
/// illumination routine; the others are declared for scene descriptions
/// and rejected there with an explicit error.
#[derive(Clone, Copy, Debug, PartialEq, Eq, Structural)]
pub enum Light {
    Ambient(i64),
    Directional(i64, Vec3),
    Point(i64, Vec3),
}

/// Which quantity is interpolated across a triangle face: a precomputed
/// intensity (Gouraud) or the normal, with lighting recomputed per pixel
/// (Phong).
#[derive(Clone, Copy, Debug, PartialEq, Eq, Structural)]
pub enum Shading {
    Gouraud,
    Phong,
}

impl Default for Shading {
    fn default() -> (r: Shading)
        ensures
            r == Shading::Gouraud,
    {
        Shading::Gouraud
    }
}

} // verus!
