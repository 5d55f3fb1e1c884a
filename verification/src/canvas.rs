//! The pixel sink: an abstract surface of colored pixels.
//!
//! The rasterizer draws through the `Canvas` trait; `BufferCanvas` is the
//! in-memory surface, and a display backend copies its pixels out after a
//! frame is presented.

use vstd::prelude::*;
use crate::fixed::fits;
use crate::rasterize::Color;

verus! {

/// Anything usable as a pixel coordinate.
pub trait IntoPixelValue: Sized {
    spec fn pixel_value(self) -> int;

    fn into_pixel_value(self) -> (r: i64)
        ensures
            r == self.pixel_value(),
    ;
}

impl IntoPixelValue for i64 {
    open spec fn pixel_value(self) -> int {
        self as int
    }

    fn into_pixel_value(self) -> i64 {
        self
    }
}

impl IntoPixelValue for i32 {
    open spec fn pixel_value(self) -> int {
        self as int
    }

    fn into_pixel_value(self) -> i64 {
        self as i64
    }
}

impl IntoPixelValue for i16 {
    open spec fn pixel_value(self) -> int {
        self as int
    }

    fn into_pixel_value(self) -> i64 {
        self as i64
    }
}

impl IntoPixelValue for i8 {
    open spec fn pixel_value(self) -> int {
        self as int
    }

    fn into_pixel_value(self) -> i64 {
        self as i64
    }
}

impl IntoPixelValue for u8 {
    open spec fn pixel_value(self) -> int {
        self as int
    }

    fn into_pixel_value(self) -> i64 {
        self as i64
    }
}

impl IntoPixelValue for u16 {
    open spec fn pixel_value(self) -> int {
        self as int
    }

    fn into_pixel_value(self) -> i64 {
        self as i64
    }
}

impl IntoPixelValue for u32 {
    open spec fn pixel_value(self) -> int {
        self as int
    }

    fn into_pixel_value(self) -> i64 {
        self as i64
    }
}

/// Map a centered-origin canvas coordinate onto the pixel grid: the row
/// index that comes out, or nothing if the pixel falls off the surface.
pub open spec fn screen_coords(x: int, y: int, w: int, h: int) -> Option<(int, int)> {
    let sx = w / 2 + x;
    let sy = h / 2 - y - 1;
    if 0 <= sx < w && 0 <= sy < h {
        Some((sx, sy))
    } else {
        None
    }
}

/// Centered-origin coordinates to top-left-origin pixel coordinates, or
/// `None` for a point off the surface.
pub fn canvas_coords_to_screen_coords<X: IntoPixelValue, Y: IntoPixelValue>(
    x: X,
    y: Y,
    width: u32,
    height: u32,
) -> (r: Option<(u32, u32)>)
    requires
        fits(x.pixel_value()),
        fits(y.pixel_value()),
    ensures
        ({
            match screen_coords(x.pixel_value(), y.pixel_value(), width as int, height as int) {
                Some((sx, sy)) => r == Some((sx as u32, sy as u32)),
                None => r is None,
            }
        }),
{
    let xi: i64 = (width as i64) / 2 + x.into_pixel_value();
    let yi: i64 = (height as i64) / 2 - y.into_pixel_value() - 1;

    if xi < 0 || xi >= width as i64 || yi < 0 || yi >= height as i64 {
        return None;
    }

    Some((xi as u32, yi as u32))
}

/// A surface of `width() * height()` pixels in row-major order, accepting
/// writes in centered-origin coordinates.
pub trait Canvas: Sized {
    spec fn width_spec(&self) -> int;

    spec fn height_spec(&self) -> int;

    /// The pixels, row-major from the top-left corner.
    spec fn pix(&self) -> Seq<Color>;

    spec fn inv(&self) -> bool;

    /// What the surface invariant gives every caller.
    proof fn inv_facts(&self)
        requires
            self.inv(),
        ensures
            self.pix().len() == self.width_spec() * self.height_spec(),
            0 < self.width_spec() <= 0x8000,
            0 < self.height_spec() <= 0x8000,
    ;

    fn width(&self) -> (r: u32)
        requires
            self.inv(),
        ensures
            r == self.width_spec(),
    ;

    fn height(&self) -> (r: u32)
        requires
            self.inv(),
        ensures
            r == self.height_spec(),
    ;

    /// Write one pixel, given in centered-origin coordinates; a write off
    /// the surface is dropped.
    fn put_pixel(&mut self, x: i64, y: i64, color: Color)
        requires
            old(self).inv(),
            fits(x as int),
            fits(y as int),
        ensures
            final(self).inv(),
            final(self).width_spec() == old(self).width_spec(),
            final(self).height_spec() == old(self).height_spec(),
            final(self).pix() == match screen_coords(
                x as int, y as int, old(self).width_spec(), old(self).height_spec(),
            ) {
                Some((sx, sy)) => old(self).pix().update(
                    sy * old(self).width_spec() + sx, color,
                ),
                None => old(self).pix(),
            },
    ;

    /// Fill the whole surface with one color.
    fn clear(&mut self, color: Color)
        requires
            old(self).inv(),
        ensures
            final(self).inv(),
            final(self).width_spec() == old(self).width_spec(),
            final(self).height_spec() == old(self).height_spec(),
            final(self).pix().len() == old(self).pix().len(),
            forall|i: int| 0 <= i < final(self).pix().len() ==> final(self).pix()[i] == color,
    ;

    /// Present the frame.  The pixel contents do not change; a display
    /// backend copies them out afterwards.
    fn draw(&mut self)
        requires
            old(self).inv(),
        ensures
            final(self).inv(),
            final(self).width_spec() == old(self).width_spec(),
            final(self).height_spec() == old(self).height_spec(),
            final(self).pix() == old(self).pix(),
    ;
}

/// The in-memory canvas: a plain pixel buffer.
pub struct BufferCanvas {
    pub width: u32,
    pub height: u32,
    pub pixels: Vec<Color>,
}

impl BufferCanvas {
    pub fn new(width: u32, height: u32, fill: Color) -> (r: BufferCanvas)
        requires
            0 < width <= 0x8000,
            0 < height <= 0x8000,
        ensures
            r.inv(),
            r.width_spec() == width,
            r.height_spec() == height,
            forall|i: int| 0 <= i < r.pix().len() ==> r.pix()[i] == fill,
    {
        proof {
            assert(width as int * height as int <= 0x4000_0000) by (nonlinear_arith)
                requires
                    0 < width <= 0x8000u32,
                    0 < height <= 0x8000u32;
        }
        let n: usize = (width as usize) * (height as usize);
        let mut pixels: Vec<Color> = Vec::new();
        let mut i: usize = 0;
        while i < n
            invariant
                i <= n,
                pixels@.len() == i,
                forall|j: int| 0 <= j < i ==> pixels@[j] == fill,
            decreases n - i,
        {
            pixels.push(fill);
            i = i + 1;
        }
        BufferCanvas { width, height, pixels }
    }

    /// Read one pixel by its top-left-origin grid position.
    pub fn pixel(&self, sx: u32, sy: u32) -> (r: Color)
        requires
            self.inv(),
            sx < self.width_spec(),
            sy < self.height_spec(),
        ensures
            r == self.pix()[sy as int * self.width_spec() + sx as int],
    {
        proof {
            index_in_buffer(sx as int, sy as int, self.width as int, self.height as int);
        }
        self.pixels[(sy as usize) * (self.width as usize) + (sx as usize)]
    }
}

/// A grid position indexes inside the row-major buffer.
pub(crate) proof fn index_in_buffer(sx: int, sy: int, w: int, h: int)
    requires
        0 <= sx < w <= 0x8000,
        0 <= sy < h <= 0x8000,
    ensures
        0 <= sy * w + sx < w * h,
        w * h <= 0x4000_0000,
{
    assert(0 <= sy * w + sx < w * h && w * h <= 0x4000_0000) by (nonlinear_arith)
        requires
            0 <= sx < w <= 0x8000,
            0 <= sy < h <= 0x8000;
}

impl Canvas for BufferCanvas {
    open spec fn width_spec(&self) -> int {
        self.width as int
    }

    open spec fn height_spec(&self) -> int {
        self.height as int
    }

    open spec fn pix(&self) -> Seq<Color> {
        self.pixels@
    }

    open spec fn inv(&self) -> bool {
        &&& self.pixels@.len() == self.width as int * self.height as int
        &&& 0 < self.width <= 0x8000
        &&& 0 < self.height <= 0x8000
    }

    proof fn inv_facts(&self) {
    }

    fn width(&self) -> u32 {
        self.width
    }

    fn height(&self) -> u32 {
        self.height
    }

    fn put_pixel(&mut self, x: i64, y: i64, color: Color) {
        match canvas_coords_to_screen_coords(x, y, self.width, self.height) {
            Some((sx, sy)) => {
                proof {
                    index_in_buffer(sx as int, sy as int, self.width as int, self.height as int);
                }
                let idx: usize = (sy as usize) * (self.width as usize) + (sx as usize);
                self.pixels[idx] = color;
            }
            None => (),
        }
    }

    fn clear(&mut self, color: Color) {
        let n: usize = self.pixels.len();
        let mut i: usize = 0;
        while i < n
            invariant
                i <= n,
                self.pixels@.len() == n,
                self.width == old(self).width,
                self.height == old(self).height,
                forall|j: int| 0 <= j < i ==> self.pixels@[j] == color,
            decreases n - i,
        {
            self.pixels[i] = color;
            i = i + 1;
        }
    }

    fn draw(&mut self) {
    }
}

} // verus!
