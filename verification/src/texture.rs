//! Textures: a dense texel array sampled with nearest lookup.

use vstd::prelude::*;
use vstd::arithmetic::div_mod::{
    lemma_div_is_ordered, lemma_div_multiples_vanish, lemma_div_pos_is_pos,
};
use crate::fixed::{clamp_spec, clamp_i64, div_i64, UNIT};
use crate::rasterize::Color;

verus! {

/// Relies on image::load_from_memory, DynamicImage::to_rgb8 and
/// ImageBuffer::into_raw: the raw buffer of a `w` by `h` RGB image holds
/// exactly `3 * w * h` bytes in row-major pixel order, and malformed
/// bytes give an error, not a panic.  Nothing more is claimed of the
/// decoded pixel values: the JPEG path picks vector routines by runtime
/// processor detection, so the same bytes can decode to slightly
/// different values on different machines.
#[verifier::external_body]
fn decode_image_bytes(bytes: &[u8]) -> (r: Option<(u32, u32, Vec<u8>)>)
    ensures
        r matches Some(t) ==> t.2@.len() == 3 * t.0 * t.1,
{
    match image::load_from_memory(bytes) {
        Ok(img) => {
            let rgb = img.to_rgb8();
            let (w, h) = (rgb.width(), rgb.height());
            Some((w, h, rgb.into_raw()))
        }
        Err(_) => None,
    }
}

/// The nearest texel for fixed-point coordinates `u`, `v` in `[0, 1]`:
/// clamp, scale to the grid, and step one texel back from the far edge.
/// The step-back reads "nearest" the way the rasterizer has always
/// computed it, biased one texel toward the origin away from the near
/// edge.
pub open spec fn texel_index(w: int, h: int, u: int, v: int) -> int {
    let uc = clamp_spec(u, 0, UNIT as int);
    let vc = clamp_spec(v, 0, UNIT as int);
    let x0 = w * uc / (UNIT as int);
    let y0 = h * vc / (UNIT as int);
    let x = if x0 == 0 { 0int } else { x0 - 1 };
    let y = if y0 == 0 { 0int } else { y0 - 1 };
    y * w + x
}

/// A two-dimensional array of color texels.
#[derive(Clone, Debug)]
pub struct Texture {
    pub pixels: Vec<Color>,
    pub w: u32,
    pub h: u32,
}

/// Scaling a clamped coordinate to the grid lands inside `[0, n]`.
proof fn lemma_texel_scale_bounds(n: int, c: int)
    requires
        0 < n,
        0 <= c <= UNIT,
    ensures
        0 <= n * c / (UNIT as int) <= n,
{
    lemma_div_pos_is_pos(n * c, UNIT as int);
    assert(n * c <= n * (UNIT as int)) by (nonlinear_arith)
        requires
            0 < n,
            c <= UNIT;
    lemma_div_is_ordered(n * c, n * (UNIT as int), UNIT as int);
    lemma_div_multiples_vanish(n, UNIT as int);
    assert(n * (UNIT as int) == UNIT as int * n) by (nonlinear_arith);
}

impl Texture {
    /// The texel array fills the rectangle and fits the index arithmetic.
    pub open spec fn wf(&self) -> bool {
        &&& self.pixels@.len() == self.w as int * self.h as int
        &&& 0 < self.w <= 0x8000
        &&& 0 < self.h <= 0x8000
    }

    /// Decode an encoded image (PNG or JPEG) into a texture.  Fails on
    /// bytes that decode to nothing, and on images wider or taller than
    /// the index arithmetic allows.  What the texels hold is the outside
    /// decoder's result, of which only the shape is assumed; whatever
    /// came back, the returned texture is well-formed.
    pub fn from_bytes(bytes: &[u8]) -> (r: Result<Texture, ()>)
        ensures
            r matches Ok(tex) ==> tex.wf(),
    {
        let decoded = decode_image_bytes(bytes);
        match decoded {
            Some((w, h, buf)) => {
                if w == 0 || w > 0x8000 || h == 0 || h > 0x8000 {
                    return Err(());
                }
                proof {
                    assert(w as int * h as int <= 0x4000_0000) by (nonlinear_arith)
                        requires
                            0 < w <= 0x8000u32,
                            0 < h <= 0x8000u32;
                }
                proof {
                    assert(3 * w as int * h as int == 3 * (w as int * h as int))
                        by (nonlinear_arith);
                }
                let n: usize = (w as usize) * (h as usize);
                let mut pixels: Vec<Color> = Vec::new();
                let mut i: usize = 0;
                while i < n
                    invariant
                        i <= n,
                        buf@.len() == 3 * n,
                        n <= 0x4000_0000,
                        pixels@.len() == i,
                        forall|j: int| 0 <= j < i ==> pixels@[j] == (Color {
                            0: buf@[3 * j],
                            1: buf@[3 * j + 1],
                            2: buf@[3 * j + 2],
                        }),
                    decreases n - i,
                {
                    let c = Color(buf[3 * i], buf[3 * i + 1], buf[3 * i + 2]);
                    pixels.push(c);
                    i = i + 1;
                }
                Ok(Texture { pixels, w, h })
            }
            None => Err(()),
        }
    }

    /// Sample the nearest texel at fixed-point coordinates `(u, v)`,
    /// clamped into `[0, 1]`.
    pub fn texel(&self, u: i64, v: i64) -> (r: Color)
        requires
            self.wf(),
        ensures
            r == self.pixels@[texel_index(self.w as int, self.h as int, u as int, v as int)],
    {
        let uc = clamp_i64(u, 0, UNIT);
        let vc = clamp_i64(v, 0, UNIT);
        proof {
            lemma_texel_scale_bounds(self.w as int, uc as int);
            lemma_texel_scale_bounds(self.h as int, vc as int);
        }
        let x0 = div_i64(self.w as i64 * uc, UNIT);
        let y0 = div_i64(self.h as i64 * vc, UNIT);
        let x = if x0 == 0 { 0 } else { x0 - 1 };
        let y = if y0 == 0 { 0 } else { y0 - 1 };
        proof {
            assert(0 <= (y as int * self.w as int + x as int)
                && (y as int * self.w as int + x as int) < (self.w as int * self.h as int)
                && (self.w as int * self.h as int) <= 0x4000_0000)
                by (nonlinear_arith)
                requires
                    0 <= x < self.w as int,
                    0 <= y < self.h as int,
                    self.w <= 0x8000u32,
                    self.h <= 0x8000u32;
        }
        self.pixels[(y as usize) * (self.w as usize) + (x as usize)]
    }
}

} // verus!
