//! A software 3D rasterizer: triangles with optional per-vertex normals
//! and texture coordinates in, colored pixels on an abstract canvas out,
//! with no hardware pipeline behind it.
//!
//! Geometry, depth and light intensity are carried as signed 64-bit
//! fixed-point numbers with `UNIT` (65536) standing for 1.0, so every
//! arithmetic step has an exact integer meaning that the contracts can
//! state.  The pipeline runs view and projection transforms, a back-face
//! cull, scanline filling with perspective-correct attribute
//! interpolation, a per-pixel depth test, and a choice of Gouraud or
//! Phong lighting.

pub mod fixed;
pub mod lerp;
pub mod math;
pub mod rasterize;
pub mod light;
pub mod canvas;
pub mod texture;
pub mod object;
pub mod draw;

pub use fixed::UNIT;
