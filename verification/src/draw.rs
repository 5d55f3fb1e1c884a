//! The rasterization pipeline: projection, culling, the depth-tested
//! pixel writer, line and triangle filling, and the frame drivers.
//!
//! The depth buffer keeps, for every pixel, the largest inverse depth
//! written so far, with zero meaning "nothing here yet": the nearest
//! surface wins, whatever order the triangles come in.

use vstd::prelude::*;
use vstd::arithmetic::div_mod::{
    lemma_div_multiples_vanish, lemma_div_pos_is_pos, lemma_fundamental_div_mod,
};
use crate::canvas::{screen_coords, Canvas};
use crate::fixed::{
    div_i64, div_i128, fits, lemma_div_bound, mul_bounded_i128, mul_i64, COORD_MAX, UNIT,
};
use crate::light::{Light, Shading};
use crate::math::{
    m4_bounded, m4_entry, m4_mul_entry, Mat4, Vec2, Vec3, Vec4,
};
use crate::object::{vec3_small, Triangle};
use crate::rasterize::{Color, Point};
use crate::texture::Texture;

verus! {

/// The closest depth the rasterizer accepts, in fixed point: geometry
/// nearer than this to the camera plane is not drawn.
pub const NEAR_PLANE: i64 = 4096;

/// Write one pixel into a row-major color sequence, dropping writes that
/// fall off the surface.
pub open spec fn paint(pix: Seq<Color>, w: int, h: int, x: int, y: int, c: Color) -> Seq<Color> {
    match screen_coords(x, y, w, h) {
        Some(sc) => pix.update(sc.1 * w + sc.0, c),
        None => pix,
    }
}

/// The depth-tested pixel write: the pixel and its depth cell change
/// exactly when the write lands on the surface and carries a strictly
/// larger inverse depth than the cell holds.
pub open spec fn depth_put(
    depth: Seq<i64>, pix: Seq<Color>, w: int, h: int,
    x: int, y: int, inv_z: i64, c: Color,
) -> (Seq<i64>, Seq<Color>) {
    match screen_coords(x, y, w, h) {
        Some(sc) => {
            let idx = sc.1 * w + sc.0;
            if inv_z > depth[idx] {
                (depth.update(idx, inv_z), pix.update(idx, c))
            } else {
                (depth, pix)
            }
        }
        None => (depth, pix),
    }
}

/// Depth ordering: when two writes aim at the same pixel and both beat
/// the stored depth, the nearer one is visible afterwards, whichever
/// order they arrive in.
pub proof fn lemma_depth_order(
    depth: Seq<i64>, pix: Seq<Color>, w: int, h: int,
    x: int, y: int, za: i64, ca: Color, zb: i64, cb: Color,
)
    requires
        screen_coords(x, y, w, h) is Some,
        pix.len() == w * h,
        depth.len() == w * h,
        0 < w,
        0 < h,
        ({
            let sc = screen_coords(x, y, w, h)->Some_0;
            depth[sc.1 * w + sc.0] < za && depth[sc.1 * w + sc.0] < zb
        }),
        za != zb,
    ensures
        ({
            let sc = screen_coords(x, y, w, h)->Some_0;
            let idx = sc.1 * w + sc.0;
            let ab = {
                let s1 = depth_put(depth, pix, w, h, x, y, za, ca);
                depth_put(s1.0, s1.1, w, h, x, y, zb, cb)
            };
            let ba = {
                let s1 = depth_put(depth, pix, w, h, x, y, zb, cb);
                depth_put(s1.0, s1.1, w, h, x, y, za, ca)
            };
            let winner = if za > zb { ca } else { cb };
            let nearest = if za > zb { za } else { zb };
            &&& ab.1[idx] == winner
            &&& ba.1[idx] == winner
            &&& ab.0[idx] == nearest
            &&& ba.0[idx] == nearest
        }),
{
    let sc = screen_coords(x, y, w, h)->Some_0;
    let sx = sc.0;
    let sy = sc.1;
    assert(0 <= sy * w + sx < w * h) by (nonlinear_arith)
        requires
            0 <= sx < w,
            0 <= sy < h;
}

/// The scanline rasterizer: owns the depth buffer and the camera setup,
/// and draws through any `Canvas`.
pub struct Rasterizer {
    pub cw: i64,
    pub ch: i64,
    pub vw: i64,
    pub vh: i64,
    pub d: i64,
    pub depth_buffer: Vec<i64>,
    pub view_projection_matrix: Mat4,
    pub view_matrix: Mat4,
    pub lights: Vec<Light>,
    pub shading: Shading,
}

impl Rasterizer {
    /// The depth buffer covers the canvas and the camera numbers are in
    /// range.
    pub open spec fn wf(&self) -> bool {
        &&& self.depth_buffer@.len() == self.cw * self.ch
        &&& 0 < self.cw <= 0x8000
        &&& 0 < self.ch <= 0x8000
        &&& 0 < self.vw <= COORD_MAX
        &&& 0 < self.vh <= COORD_MAX
        &&& 0 < self.d <= COORD_MAX
        &&& m4_bounded(self.view_projection_matrix)
        &&& m4_bounded(self.view_matrix)
    }

    /// The camera setup other than the depth buffer is unchanged.
    pub open spec fn same_setup(&self, other: &Rasterizer) -> bool {
        &&& self.cw == other.cw
        &&& self.ch == other.ch
        &&& self.vw == other.vw
        &&& self.vh == other.vh
        &&& self.d == other.d
        &&& self.view_projection_matrix == other.view_projection_matrix
        &&& self.view_matrix == other.view_matrix
        &&& self.lights@ == other.lights@
        &&& self.shading == other.shading
    }

    /// Build a rasterizer for a canvas size, a viewport and a camera.
    /// Refuses a singular view or projection matrix, since such a camera
    /// cannot be inverted back out of screen space.
    pub fn new(
        cw: i64,
        ch: i64,
        vw: i64,
        vh: i64,
        d: i64,
        view_matrix: Mat4,
        projection_matrix: Mat4,
        lights: Vec<Light>,
    ) -> (r: Option<Rasterizer>)
        requires
            0 < cw <= 0x8000,
            0 < ch <= 0x8000,
            0 < vw <= COORD_MAX,
            0 < vh <= COORD_MAX,
            0 < d <= COORD_MAX,
            m4_bounded(view_matrix),
            m4_bounded(projection_matrix),
            forall|i: int, j: int|
                0 <= i < 4 && 0 <= j < 4
                    ==> fits(#[trigger] m4_mul_entry(projection_matrix, view_matrix, i, j)),
        ensures
            r is Some <==> (crate::math::m4_det(view_matrix) != 0
                && crate::math::m4_det(projection_matrix) != 0),
            r matches Some(rz) ==> rz.wf()
                && rz.cw == cw && rz.ch == ch && rz.vw == vw && rz.vh == vh && rz.d == d
                && rz.view_matrix == view_matrix
                && (forall|i: int, j: int|
                    0 <= i < 4 && 0 <= j < 4
                        ==> #[trigger] m4_entry(rz.view_projection_matrix, i, j)
                            == m4_mul_entry(projection_matrix, view_matrix, i, j))
                && rz.lights@ == lights@
                && rz.shading == Shading::Phong
                && rz.depth_buffer@.len() == cw * ch
                && (forall|i: int| 0 <= i < rz.depth_buffer@.len()
                    ==> rz.depth_buffer@[i] == 0i64),
    {
        if view_matrix.det() == 0 || projection_matrix.det() == 0 {
            return None;
        }
        let view_projection_matrix = projection_matrix.mul(&view_matrix);
        proof {
            crate::math::lemma_entries_bounded(view_projection_matrix);
            assert(cw as int * ch as int <= 0x4000_0000) by (nonlinear_arith)
                requires
                    0 < cw <= 0x8000i64,
                    0 < ch <= 0x8000i64;
        }
        let n: usize = (cw as usize) * (ch as usize);
        let mut depth_buffer: Vec<i64> = Vec::new();
        let mut i: usize = 0;
        while i < n
            invariant
                i <= n,
                depth_buffer@.len() == i,
                forall|j: int| 0 <= j < i ==> depth_buffer@[j] == 0i64,
            decreases n - i,
        {
            depth_buffer.push(0);
            i = i + 1;
        }
        Some(Rasterizer {
            cw,
            ch,
            vw,
            vh,
            d,
            depth_buffer,
            view_projection_matrix,
            view_matrix,
            lights,
            shading: Shading::Phong,
        })
    }

    /// Start a frame: every depth cell back to zero and the canvas filled
    /// with the background color.
    pub fn clear<C: Canvas>(&mut self, canvas: &mut C, color: Color)
        requires
            old(self).wf(),
            old(canvas).inv(),
        ensures
            final(self).wf(),
            final(self).same_setup(old(self)),
            final(self).depth_buffer@.len() == old(self).depth_buffer@.len(),
            forall|i: int| 0 <= i < final(self).depth_buffer@.len()
                ==> final(self).depth_buffer@[i] == 0i64,
            final(canvas).inv(),
            final(canvas).width_spec() == old(canvas).width_spec(),
            final(canvas).height_spec() == old(canvas).height_spec(),
            final(canvas).pix().len() == old(canvas).pix().len(),
            forall|i: int| 0 <= i < final(canvas).pix().len()
                ==> final(canvas).pix()[i] == color,
    {
        let n: usize = self.depth_buffer.len();
        let mut i: usize = 0;
        while i < n
            invariant
                i <= n,
                self.depth_buffer@.len() == n,
                self.cw == old(self).cw,
                self.ch == old(self).ch,
                self.vw == old(self).vw,
                self.vh == old(self).vh,
                self.d == old(self).d,
                self.view_projection_matrix == old(self).view_projection_matrix,
                self.view_matrix == old(self).view_matrix,
                self.lights@ == old(self).lights@,
                self.shading == old(self).shading,
                forall|j: int| 0 <= j < i ==> self.depth_buffer@[j] == 0i64,
            decreases n - i,
        {
            self.depth_buffer[i] = 0;
            i = i + 1;
        }
        canvas.clear(color);
    }

    /// The depth-tested pixel write of `depth_put`: keep the write only
    /// if it is nearer than what the pixel already shows.
    pub fn put_pixel<C: Canvas>(
        &mut self,
        canvas: &mut C,
        x: i64,
        y: i64,
        inv_z: i64,
        color: Color,
    )
        requires
            old(self).wf(),
            old(canvas).inv(),
            old(canvas).width_spec() == old(self).cw,
            old(canvas).height_spec() == old(self).ch,
            fits(x as int),
            fits(y as int),
        ensures
            final(self).wf(),
            final(self).same_setup(old(self)),
            final(canvas).inv(),
            final(canvas).width_spec() == old(canvas).width_spec(),
            final(canvas).height_spec() == old(canvas).height_spec(),
            (final(self).depth_buffer@, final(canvas).pix()) == depth_put(
                old(self).depth_buffer@, old(canvas).pix(),
                old(self).cw as int, old(self).ch as int,
                x as int, y as int, inv_z, color,
            ),
    {
        proof {
            old(canvas).inv_facts();
        }
        match crate::canvas::canvas_coords_to_screen_coords(
            x, y, self.cw as u32, self.ch as u32,
        ) {
            Some((sx, sy)) => {
                proof {
                    crate::canvas::index_in_buffer(
                        sx as int, sy as int, self.cw as int, self.ch as int,
                    );
                }
                let idx: usize = (sy as usize) * (self.cw as usize) + (sx as usize);
                if inv_z > self.depth_buffer[idx] {
                    canvas.put_pixel(x, y, color);
                    self.depth_buffer[idx] = inv_z;
                }
            }
            None => (),
        }
    }

    /// Scale a viewport point onto the canvas pixel grid, rounding down.
    pub fn viewport_to_canvas(&self, p: Vec2) -> (r: Vec2)
        requires
            self.wf(),
            p.bounded(),
        ensures
            r.0 == p.0 * self.cw / self.vw as int,
            r.1 == p.1 * self.ch / self.vh as int,
    {
        Vec2(
            div_i64(mul_i64(p.0, self.cw), self.vw),
            div_i64(mul_i64(p.1, self.ch), self.vh),
        )
    }

    /// What `project_vertex` computes for one coordinate: the perspective
    /// divide by the depth, then the viewport-to-canvas scale, each
    /// rounded down.
    pub open spec fn projected(coord: int, z: int, d: int, cpix: int, vsize: int) -> int {
        coord * d / z * cpix / vsize
    }

    /// Perspective-project a view-space point to a screen point, or
    /// nothing when the result leaves the drawable coordinate range (a
    /// point this far outside the screen cannot be rasterized anyway).
    pub fn project_vertex(&self, v: Vec3) -> (r: Option<Vec2>)
        requires
            self.wf(),
            v.bounded(),
            v.2 > 0,
        ensures
            ({
                let px = Self::projected(v.0 as int, v.2 as int, self.d as int,
                    self.cw as int, self.vw as int);
                let py = Self::projected(v.1 as int, v.2 as int, self.d as int,
                    self.ch as int, self.vh as int);
                if fits(px) && fits(py) {
                    r matches Some(p) && p.0 == px && p.1 == py && p.bounded()
                } else {
                    r is None
                }
            }),
    {
        proof {
            lemma_div_bound(v.0 as int * self.d as int, v.2 as int);
            lemma_div_bound(v.1 as int * self.d as int, v.2 as int);
        }
        let tx = div_i128(mul_i64(v.0, self.d) as i128, v.2 as i128);
        let ty = div_i128(mul_i64(v.1, self.d) as i128, v.2 as i128);
        proof {
            lemma_div_bound(tx as int * self.cw as int, self.vw as int);
            lemma_div_bound(ty as int * self.ch as int, self.vh as int);
            assert(-0x2000_0000_0000_0000_0000_0000_0000 <= tx as int * self.cw as int
                <= 0x2000_0000_0000_0000_0000_0000_0000) by (nonlinear_arith)
                requires
                    -0x1000_0000_0000_0000 <= tx <= 0x1000_0000_0000_0000,
                    0 < self.cw <= 0x8000i64;
            assert(-0x2000_0000_0000_0000_0000_0000_0000 <= ty as int * self.ch as int
                <= 0x2000_0000_0000_0000_0000_0000_0000) by (nonlinear_arith)
                requires
                    -0x1000_0000_0000_0000 <= ty <= 0x1000_0000_0000_0000,
                    0 < self.ch <= 0x8000i64;
        }
        let px = div_i128(tx * (self.cw as i128), self.vw as i128);
        let py = div_i128(ty * (self.ch as i128), self.vh as i128);
        if px < -COORD_MAX as i128 || px > COORD_MAX as i128
            || py < -COORD_MAX as i128 || py > COORD_MAX as i128 {
            return None;
        }
        Some(Vec2(px as i64, py as i64))
    }

    /// What `unproject_point` computes for one coordinate: the inverse of
    /// `projected`, with the same rounding direction.
    pub open spec fn unprojected(pix: int, z: int, d: int, cpix: int, vsize: int) -> int {
        pix * vsize / cpix * z / d
    }

    /// Map a screen pixel and its true depth back to the view-space
    /// point, or nothing when the value leaves the coordinate range.
    /// Phong shading uses this to light each pixel at its real position.
    pub fn unproject_point(&self, x: i64, y: i64, z: i64) -> (r: Option<Vec3>)
        requires
            self.wf(),
            fits(x as int),
            fits(y as int),
            0 < z,
            fits(z as int),
        ensures
            ({
                let vx = Self::unprojected(x as int, z as int, self.d as int,
                    self.cw as int, self.vw as int);
                let vy = Self::unprojected(y as int, z as int, self.d as int,
                    self.ch as int, self.vh as int);
                if fits(vx) && fits(vy) {
                    r matches Some(p) && p.0 == vx && p.1 == vy && p.2 == z && p.bounded()
                } else {
                    r is None
                }
            }),
    {
        proof {
            lemma_div_bound(x as int * self.vw as int, self.cw as int);
            lemma_div_bound(y as int * self.vh as int, self.ch as int);
        }
        let tx = div_i128(mul_i64(x, self.vw) as i128, self.cw as i128);
        let ty = div_i128(mul_i64(y, self.vh) as i128, self.ch as i128);
        proof {
            lemma_div_bound(tx as int * z as int, self.d as int);
            lemma_div_bound(ty as int * z as int, self.d as int);
            assert(-0x1000_0000_0000_0000_0000_0000_0000_0000 <= tx as int * z as int
                <= 0x1000_0000_0000_0000_0000_0000_0000_0000) by (nonlinear_arith)
                requires
                    -0x1000_0000_0000_0000 <= tx <= 0x1000_0000_0000_0000,
                    0 < z <= 0x4000_0000i64;
            assert(-0x1000_0000_0000_0000_0000_0000_0000_0000 <= ty as int * z as int
                <= 0x1000_0000_0000_0000_0000_0000_0000_0000) by (nonlinear_arith)
                requires
                    -0x1000_0000_0000_0000 <= ty <= 0x1000_0000_0000_0000,
                    0 < z <= 0x4000_0000i64;
        }
        let vx = div_i128(tx * (z as i128), self.d as i128);
        let vy = div_i128(ty * (z as i128), self.d as i128);
        if vx < -COORD_MAX as i128 || vx > COORD_MAX as i128
            || vy < -COORD_MAX as i128 || vy > COORD_MAX as i128 {
            return None;
        }
        Some(Vec3(vx as i64, vy as i64, z))
    }

    /// The sign the culling test looks at: the triangle's geometric
    /// normal against the vector from its centroid (rounded down
    /// componentwise) to the camera reference point.
    pub open spec fn cull_dot(t: Triangle, camera: Vec3) -> int {
        let nx = (t.p1.1 - t.p0.1) * (t.p2.2 - t.p0.2) - (t.p1.2 - t.p0.2) * (t.p2.1 - t.p0.1);
        let ny = (t.p1.2 - t.p0.2) * (t.p2.0 - t.p0.0) - (t.p1.0 - t.p0.0) * (t.p2.2 - t.p0.2);
        let nz = (t.p1.0 - t.p0.0) * (t.p2.1 - t.p0.1) - (t.p1.1 - t.p0.1) * (t.p2.0 - t.p0.0);
        let cx = camera.0 - (t.p0.0 + t.p1.0 + t.p2.0) / 3;
        let cy = camera.1 - (t.p0.1 + t.p1.1 + t.p2.1) / 3;
        let cz = camera.2 - (t.p0.2 + t.p1.2 + t.p2.2) / 3;
        nx * cx + ny * cy + nz * cz
    }

    /// Back-face culling: skip a triangle whose normal points away from
    /// the camera reference point.  The dot product is not normalized;
    /// only its sign matters.
    pub fn should_cull(&self, t: &Triangle, camera: Vec3) -> (r: bool)
        requires
            vec3_small(t.p0),
            vec3_small(t.p1),
            vec3_small(t.p2),
            vec3_small(camera),
        ensures
            r <==> Self::cull_dot(*t, camera) < 0,
    {
        let n = t.normal();
        proof {
            lemma_div_bound(t.p0.0 + t.p1.0 + t.p2.0, 3);
            lemma_div_bound(t.p0.1 + t.p1.1 + t.p2.1, 3);
            lemma_div_bound(t.p0.2 + t.p1.2 + t.p2.2, 3);
        }
        let cx = camera.0 - div_i64(t.p0.0 + t.p1.0 + t.p2.0, 3);
        let cy = camera.1 - div_i64(t.p0.1 + t.p1.1 + t.p2.1, 3);
        let cz = camera.2 - div_i64(t.p0.2 + t.p1.2 + t.p2.2, 3);
        let ga = Ghost(0x2000_0000_0000_0000int);
        let gb = Ghost(0x1_0000_0000_0000int);
        let dot = mul_bounded_i128(n.0 as i128, cx as i128, ga, gb)
            + mul_bounded_i128(n.1 as i128, cy as i128, ga, gb)
            + mul_bounded_i128(n.2 as i128, cz as i128, ga, gb);
        dot < 0
    }
}

/// The fixed ambient floor every lit point receives: 0.2 in fixed point.
pub const AMBIENT_LIGHT: i64 = 13107;

/// The shininess exponent of the specular highlight.
pub const SPECULAR_EXPONENT: u32 = 50;

/// The illumination routine rejects the light variants it does not
/// compute.
#[derive(Clone, Copy, Debug, PartialEq, Eq, Structural)]
pub struct UnsupportedLight;

/// The cosine of the angle between two vectors in fixed point, clamped
/// into `[0, 1]`, and zero when either vector has no direction.  (The
/// magnitudes are rounded-down square roots, so without the clamp the
/// quotient could slightly pass one.)
pub open spec fn cos_clamped(a: Vec3, b: Vec3) -> int {
    if crate::math::norm2(a) > 0 && crate::math::norm2(b) > 0 {
        crate::fixed::clamp_spec(
            UNIT * crate::math::dot3(a, b)
                / (crate::fixed::sqrt_val(crate::math::norm2(a))
                    * crate::fixed::sqrt_val(crate::math::norm2(b))),
            0,
            UNIT as int,
        )
    } else {
        0
    }
}

/// The light direction reflected about the surface normal, in fixed
/// point, with the normal assumed unit length.
pub open spec fn reflect_about(normal: Vec3, dir: Vec3) -> Vec3 {
    Vec3 {
        0: (2 * (normal.0 * crate::math::dot3(normal, dir)) / 0x1_0000_0000 - dir.0) as i64,
        1: (2 * (normal.1 * crate::math::dot3(normal, dir)) / 0x1_0000_0000 - dir.1) as i64,
        2: (2 * (normal.2 * crate::math::dot3(normal, dir)) / 0x1_0000_0000 - dir.2) as i64,
    }
}

/// The intensity a directional light of the given strength gives a
/// surface point: the ambient floor, a diffuse term from the angle
/// between the reversed light direction and the normal, and a specular
/// term from the reflected direction against the view direction (the
/// camera-to-point direction negated) raised to the shininess exponent.
pub open spec fn illum_directional(center: Vec3, camera: Vec3, normal: Vec3, intensity: int,
    dir: Vec3) -> int {
    let neg_dir = Vec3 { 0: (-(dir.0 as int)) as i64, 1: (-(dir.1 as int)) as i64,
        2: (-(dir.2 as int)) as i64 };
    let view = Vec3 { 0: (camera.0 - center.0) as i64, 1: (camera.1 - center.1) as i64,
        2: (camera.2 - center.2) as i64 };
    let diffuse = cos_clamped(neg_dir, normal);
    let spec_cos = cos_clamped(reflect_about(normal, dir), view);
    let specular = if spec_cos > 0 {
        crate::fixed::pow_unit_spec(spec_cos, SPECULAR_EXPONENT as nat) * intensity
            / (UNIT as int)
    } else {
        0
    };
    AMBIENT_LIGHT + diffuse * intensity / (UNIT as int) + specular
}

/// The base color of one fragment: the texture sampled at the
/// perspective-corrected coordinates (the interpolated u/z and v/z
/// divided by the interpolated inverse depth), or the triangle's flat
/// color when either the texture or the coordinates are missing.
pub open spec fn fragment_base_color(
    uvscan: Option<(crate::lerp::Lerp, crate::lerp::Lerp)>,
    texture: Option<&Texture>,
    flat: Color,
    inv_z: int,
    x: int,
) -> Color {
    match (uvscan, texture) {
        (Some(us), Some(t)) => t.pixels@[crate::texture::texel_index(
            t.w as int, t.h as int,
            us.0.at(x) * UNIT / inv_z,
            us.1.at(x) * UNIT / inv_z,
        )],
        _ => flat,
    }
}

/// The light intensity of one fragment: the interpolated Gouraud value,
/// or, under Phong shading, the illumination recomputed at the pixel's
/// view-space position with the interpolated normal.  Where that
/// position cannot be recovered inside the coordinate range, the Gouraud
/// value stands in.
pub open spec fn fragment_intensity(
    iscan: crate::lerp::Lerp,
    nxscan: crate::lerp::Lerp,
    nyscan: crate::lerp::Lerp,
    nzscan: crate::lerp::Lerp,
    cam: Vec3,
    li: i64,
    dir: Vec3,
    phong: bool,
    d: int,
    cw: int,
    ch: int,
    vw: int,
    vh: int,
    inv_z: int,
    x: int,
    y: int,
) -> int {
    if phong {
        let zz = 0x1_0000_0000int / inv_z;
        let ux = Rasterizer::unprojected(x, zz, d, cw, vw);
        let uy = Rasterizer::unprojected(y, zz, d, ch, vh);
        if -0x2000_0000 <= ux <= 0x2000_0000 && -0x2000_0000 <= uy <= 0x2000_0000 {
            let pt = Vec3 { 0: ux as i64, 1: uy as i64, 2: zz as i64 };
            let nn = Vec3 {
                0: nxscan.at(x) as i64,
                1: nyscan.at(x) as i64,
                2: nzscan.at(x) as i64,
            };
            illum_directional(pt, cam, nn, li as int, dir)
        } else {
            iscan.at(x)
        }
    } else {
        iscan.at(x)
    }
}

/// A base color lit by an intensity: every channel scaled in fixed point
/// and clamped back into eight bits.
pub open spec fn lit_color(base: Color, intensity: int) -> Color {
    Color {
        0: crate::rasterize::scaled_to_channel(
            crate::rasterize::channel_to_scaled(base.0 as int) * intensity / (UNIT as int),
        ) as u8,
        1: crate::rasterize::scaled_to_channel(
            crate::rasterize::channel_to_scaled(base.1 as int) * intensity / (UNIT as int),
        ) as u8,
        2: crate::rasterize::scaled_to_channel(
            crate::rasterize::channel_to_scaled(base.2 as int) * intensity / (UNIT as int),
        ) as u8,
    }
}

/// One scanline of the triangle rasterizer: for every column of the scan
/// domain up to `x`, the depth-tested write of the fragment's inverse
/// depth and lit color.
pub open spec fn scan_row(
    depth: Seq<i64>,
    pix: Seq<Color>,
    w: int,
    h: int,
    y: int,
    zscan: crate::lerp::Lerp,
    iscan: crate::lerp::Lerp,
    nxscan: crate::lerp::Lerp,
    nyscan: crate::lerp::Lerp,
    nzscan: crate::lerp::Lerp,
    uvscan: Option<(crate::lerp::Lerp, crate::lerp::Lerp)>,
    flat: Color,
    texture: Option<&Texture>,
    cam: Vec3,
    li: i64,
    dir: Vec3,
    phong: bool,
    d: int,
    cw: int,
    ch: int,
    vw: int,
    vh: int,
    x: int,
) -> (Seq<i64>, Seq<Color>)
    decreases x + 1 - zscan.i0,
{
    if x < zscan.i0 {
        (depth, pix)
    } else {
        let prev = scan_row(
            depth, pix, w, h, y, zscan, iscan, nxscan, nyscan, nzscan, uvscan, flat,
            texture, cam, li, dir, phong, d, cw, ch, vw, vh, x - 1,
        );
        let inv_z = zscan.at(x);
        let base = fragment_base_color(uvscan, texture, flat, inv_z, x);
        let inten = fragment_intensity(
            iscan, nxscan, nyscan, nzscan, cam, li, dir, phong,
            d, cw, ch, vw, vh, inv_z, x, y,
        );
        depth_put(prev.0, prev.1, w, h, x, y, inv_z as i64, lit_color(base, inten))
    }
}

/// The vertex of a triangle with the given index.
pub open spec fn vtx(t: Triangle, i: int) -> Vec3 {
    if i == 0 { t.p0 } else if i == 1 { t.p1 } else { t.p2 }
}

/// The shading normal of a vertex: the model's per-vertex normal when
/// present, else the face normal.
pub open spec fn nrm(t: Triangle, i: int, face: Vec3) -> Vec3 {
    match t.normals {
        Some(ns) => if i == 0 { ns.0 } else if i == 1 { ns.1 } else { ns.2 },
        None => face,
    }
}

/// The texture coordinate of a vertex, for a triangle that has them.
pub open spec fn uvc(t: Triangle, i: int) -> Vec2 {
    match t.uvs {
        Some(uvs) => if i == 0 { uvs.0 } else if i == 1 { uvs.1 } else { uvs.2 },
        None => Vec2 { 0: 0i64, 1: 0i64 },
    }
}

/// The unit-length face normal of a triangle, or zero for a degenerate
/// face.
pub open spec fn face_unit_normal(t: Triangle) -> Vec3 {
    let nx = (t.p1.1 - t.p0.1) * (t.p2.2 - t.p0.2) - (t.p1.2 - t.p0.2) * (t.p2.1 - t.p0.1);
    let ny = (t.p1.2 - t.p0.2) * (t.p2.0 - t.p0.0) - (t.p1.0 - t.p0.0) * (t.p2.2 - t.p0.2);
    let nz = (t.p1.0 - t.p0.0) * (t.p2.1 - t.p0.1) - (t.p1.1 - t.p0.1) * (t.p2.0 - t.p0.0);
    let nw = nx * nx + ny * ny + nz * nz;
    if nw == 0 {
        Vec3 { 0: 0i64, 1: 0i64, 2: 0i64 }
    } else {
        Vec3 {
            0: (nx * UNIT / crate::fixed::sqrt_val(nw)) as i64,
            1: (ny * UNIT / crate::fixed::sqrt_val(nw)) as i64,
            2: (nz * UNIT / crate::fixed::sqrt_val(nw)) as i64,
        }
    }
}

/// The three screen points sorted by ascending row, stably, each
/// carrying the index of the vertex it came from.
pub open spec fn sorted_points(p0: Point, p1: Point, p2: Point)
    -> (Point, int, Point, int, Point, int) {
    let (a0, j0, a1, j1) = if p1.y < p0.y { (p1, 1int, p0, 0int) } else { (p0, 0int, p1, 1int) };
    let (b0, k0, b2, k2) = if p2.y < a0.y { (p2, 2int, a0, j0) } else { (a0, j0, p2, 2int) };
    let (c1, l1, c2, l2) = if b2.y < a1.y { (b2, k2, a1, j1) } else { (a1, j1, b2, k2) };
    (b0, k0, c1, l1, c2, l2)
}

/// Whether the long edge lies geometrically left: both sides probed at
/// the middle of the row domain, the long edge left exactly when its
/// probe is smaller.
pub open spec fn long_is_left_probe(sp0: Point, sp1: Point, sp2: Point) -> bool {
    let m = sp0.y + (sp2.y - sp0.y) as int / 2;
    crate::lerp::lerp_at(sp0.y as int, sp0.x as int, sp2.y as int, sp2.x as int, m)
        < (if m < sp1.y {
            crate::lerp::lerp_at(sp0.y as int, sp0.x as int, sp1.y as int, sp1.x as int, m)
        } else {
            crate::lerp::lerp_at(sp1.y as int, sp1.x as int, sp2.y as int, sp2.x as int, m)
        })
}

/// One side of a triangle for one attribute: the long edge as a single
/// segment, or the two short edges joined.
pub open spec fn side_kind(i0: i64, d0: i64, i1: i64, d1: i64, i2: i64, d2: i64, long: bool)
    -> crate::lerp::LerpKind {
    let (a01, a12, a02) = crate::lerp::edge_lerps(
        i0 as int, d0 as int, i1 as int, d1 as int, i2 as int, d2 as int,
    );
    if long {
        crate::lerp::LerpKind::Lerp(a02)
    } else {
        crate::lerp::LerpKind::Piecewise(crate::lerp::PiecewiseLerp { a: a01, b: a12 })
    }
}

/// The whole scanline fill of one triangle, row by row up to `y`, given
/// the row-sorted screen points and the per-vertex attribute samples in
/// the same order: inverse depths `iz`, Gouraud intensities `il`,
/// shading normals `nv`, and texture coordinates over depth `uvz`.
pub open spec fn tri_fill(
    depth: Seq<i64>,
    pix: Seq<Color>,
    w: int,
    h: int,
    sp0: Point,
    sp1: Point,
    sp2: Point,
    iz: (i64, i64, i64),
    il: (i64, i64, i64),
    nv: (Vec3, Vec3, Vec3),
    uvz: Option<((i64, i64, i64), (i64, i64, i64))>,
    flat: Color,
    texture: Option<&Texture>,
    cam: Vec3,
    li: i64,
    dir: Vec3,
    phong: bool,
    d: int,
    cw: int,
    ch: int,
    vw: int,
    vh: int,
    y: int,
) -> (Seq<i64>, Seq<Color>)
    decreases y + 1 - sp0.y,
{
    if y < sp0.y {
        (depth, pix)
    } else {
        let prev = tri_fill(
            depth, pix, w, h, sp0, sp1, sp2, iz, il, nv, uvz, flat, texture,
            cam, li, dir, phong, d, cw, ch, vw, vh, y - 1,
        );
        let ll = long_is_left_probe(sp0, sp1, sp2);
        let xl = tri_x_at(sp0.y as int, sp0.x as int, sp1.y as int, sp1.x as int,
            sp2.y as int, sp2.x as int, ll, y);
        let xr = tri_x_at(sp0.y as int, sp0.x as int, sp1.y as int, sp1.x as int,
            sp2.y as int, sp2.x as int, !ll, y);
        if xl <= xr {
            let zscan = crate::lerp::Lerp {
                i0: xl as i64,
                d0: tri_x_at(sp0.y as int, iz.0 as int, sp1.y as int, iz.1 as int,
                    sp2.y as int, iz.2 as int, ll, y) as i64,
                i1: xr as i64,
                d1: tri_x_at(sp0.y as int, iz.0 as int, sp1.y as int, iz.1 as int,
                    sp2.y as int, iz.2 as int, !ll, y) as i64,
            };
            let iscan = crate::lerp::Lerp {
                i0: xl as i64,
                d0: tri_x_at(sp0.y as int, il.0 as int, sp1.y as int, il.1 as int,
                    sp2.y as int, il.2 as int, ll, y) as i64,
                i1: xr as i64,
                d1: tri_x_at(sp0.y as int, il.0 as int, sp1.y as int, il.1 as int,
                    sp2.y as int, il.2 as int, !ll, y) as i64,
            };
            let nxscan = crate::lerp::Lerp {
                i0: xl as i64,
                d0: tri_x_at(sp0.y as int, nv.0.0 as int, sp1.y as int, nv.1.0 as int,
                    sp2.y as int, nv.2.0 as int, ll, y) as i64,
                i1: xr as i64,
                d1: tri_x_at(sp0.y as int, nv.0.0 as int, sp1.y as int, nv.1.0 as int,
                    sp2.y as int, nv.2.0 as int, !ll, y) as i64,
            };
            let nyscan = crate::lerp::Lerp {
                i0: xl as i64,
                d0: tri_x_at(sp0.y as int, nv.0.1 as int, sp1.y as int, nv.1.1 as int,
                    sp2.y as int, nv.2.1 as int, ll, y) as i64,
                i1: xr as i64,
                d1: tri_x_at(sp0.y as int, nv.0.1 as int, sp1.y as int, nv.1.1 as int,
                    sp2.y as int, nv.2.1 as int, !ll, y) as i64,
            };
            let nzscan = crate::lerp::Lerp {
                i0: xl as i64,
                d0: tri_x_at(sp0.y as int, nv.0.2 as int, sp1.y as int, nv.1.2 as int,
                    sp2.y as int, nv.2.2 as int, ll, y) as i64,
                i1: xr as i64,
                d1: tri_x_at(sp0.y as int, nv.0.2 as int, sp1.y as int, nv.1.2 as int,
                    sp2.y as int, nv.2.2 as int, !ll, y) as i64,
            };
            let uvscan = match uvz {
                Some(t) => Some((
                    crate::lerp::Lerp {
                        i0: xl as i64,
                        d0: tri_x_at(sp0.y as int, t.0.0 as int, sp1.y as int, t.0.1 as int,
                            sp2.y as int, t.0.2 as int, ll, y) as i64,
                        i1: xr as i64,
                        d1: tri_x_at(sp0.y as int, t.0.0 as int, sp1.y as int, t.0.1 as int,
                            sp2.y as int, t.0.2 as int, !ll, y) as i64,
                    },
                    crate::lerp::Lerp {
                        i0: xl as i64,
                        d0: tri_x_at(sp0.y as int, t.1.0 as int, sp1.y as int, t.1.1 as int,
                            sp2.y as int, t.1.2 as int, ll, y) as i64,
                        i1: xr as i64,
                        d1: tri_x_at(sp0.y as int, t.1.0 as int, sp1.y as int, t.1.1 as int,
                            sp2.y as int, t.1.2 as int, !ll, y) as i64,
                    },
                )),
                None => None,
            };
            scan_row(
                prev.0, prev.1, w, h, y, zscan, iscan, nxscan, nyscan, nzscan, uvscan,
                flat, texture, cam, li, dir, phong, d, cw, ch, vw, vh, xr,
            )
        } else {
            prev
        }
    }
}

/// What one `draw_triangle` call does to the depth buffer and the
/// pixels: nothing for a triangle facing away from the camera reference
/// point, else the scanline fill with every per-vertex sample derived
/// from the triangle as the rasterizer derives it.
pub open spec fn tri_draw(
    depth: Seq<i64>,
    pix: Seq<Color>,
    w: int,
    h: int,
    tri: Triangle,
    center: Vec3,
    cam: Vec3,
    dir: Vec3,
    li: i64,
    phong: bool,
    texture: Option<&Texture>,
    p0: Point,
    p1: Point,
    p2: Point,
    d: int,
    cw: int,
    ch: int,
    vw: int,
    vh: int,
) -> (Seq<i64>, Seq<Color>) {
    if Rasterizer::cull_dot(tri, center) < 0 {
        (depth, pix)
    } else {
        let s = sorted_points(p0, p1, p2);
        let fu = face_unit_normal(tri);
        let iz = (
            (0x1_0000_0000int / vtx(tri, s.1).2 as int) as i64,
            (0x1_0000_0000int / vtx(tri, s.3).2 as int) as i64,
            (0x1_0000_0000int / vtx(tri, s.5).2 as int) as i64,
        );
        let il = (
            illum_directional(vtx(tri, s.1), cam, fu, li as int, dir) as i64,
            illum_directional(vtx(tri, s.3), cam, fu, li as int, dir) as i64,
            illum_directional(vtx(tri, s.5), cam, fu, li as int, dir) as i64,
        );
        let nv = (nrm(tri, s.1, fu), nrm(tri, s.3, fu), nrm(tri, s.5, fu));
        let uvz = match tri.uvs {
            Some(_) => Some((
                (
                    (uvc(tri, s.1).0 * UNIT / vtx(tri, s.1).2 as int) as i64,
                    (uvc(tri, s.3).0 * UNIT / vtx(tri, s.3).2 as int) as i64,
                    (uvc(tri, s.5).0 * UNIT / vtx(tri, s.5).2 as int) as i64,
                ),
                (
                    (uvc(tri, s.1).1 * UNIT / vtx(tri, s.1).2 as int) as i64,
                    (uvc(tri, s.3).1 * UNIT / vtx(tri, s.3).2 as int) as i64,
                    (uvc(tri, s.5).1 * UNIT / vtx(tri, s.5).2 as int) as i64,
                ),
            )),
            None => None,
        };
        tri_fill(
            depth, pix, w, h, s.0, s.2, s.4, iz, il, nv, uvz, tri.color, texture,
            cam, li, dir, phong, d, cw, ch, vw, vh, s.4.y as int,
        )
    }
}

/// How many samples an inclusive integer table from `i0` to `i1` holds.
pub open spec fn table_len(i0: int, i1: int) -> int {
    if i0 == i1 { 1 } else { i1 - i0 + 1 }
}

/// One fragment-colored triangle-free primitive: the pixels after drawing
/// a run along one axis up to `i`, each step writing the interpolated
/// value on the other axis.  `horiz` says whether `i` is the x or the y
/// coordinate.
pub open spec fn line_axis_prefix(
    pix: Seq<Color>, w: int, h: int, horiz: bool,
    i0: int, d0: int, i1: int, d1: int, c0: Color, c1: Color, i: int,
) -> Seq<Color>
    decreases i + 1 - i0,
{
    if i < i0 {
        pix
    } else {
        let prev = line_axis_prefix(pix, w, h, horiz, i0, d0, i1, d1, c0, c1, i - 1);
        let v = crate::lerp::lerp_at(i0, d0, i1, d1, i);
        let c = color_lerp(c0, c1, i0, i1, i);
        if horiz {
            paint(prev, w, h, i, v, c)
        } else {
            paint(prev, w, h, v, i, c)
        }
    }
}

/// The color a two-color gradient shows at index `i`: each channel
/// interpolated in fixed point and mapped back to 8 bits.
pub open spec fn color_lerp(c0: Color, c1: Color, i0: int, i1: int, i: int) -> Color {
    Color {
        0: crate::rasterize::scaled_to_channel(crate::lerp::lerp_at(
            i0, crate::rasterize::channel_to_scaled(c0.0 as int),
            i1, crate::rasterize::channel_to_scaled(c1.0 as int), i,
        )) as u8,
        1: crate::rasterize::scaled_to_channel(crate::lerp::lerp_at(
            i0, crate::rasterize::channel_to_scaled(c0.1 as int),
            i1, crate::rasterize::channel_to_scaled(c1.1 as int), i,
        )) as u8,
        2: crate::rasterize::scaled_to_channel(crate::lerp::lerp_at(
            i0, crate::rasterize::channel_to_scaled(c0.2 as int),
            i1, crate::rasterize::channel_to_scaled(c1.2 as int), i,
        )) as u8,
    }
}

/// Every pixel a shaded line from `(p0, c0)` to `(p1, c1)` writes: one
/// sample per step of the dominant axis, endpoints included.
pub open spec fn shaded_line_pixels(
    pix: Seq<Color>, w: int, h: int, p0: Point, c0: Color, p1: Point, c1: Color,
) -> Seq<Color> {
    let dx = p1.x - p0.x;
    let dy = p1.y - p0.y;
    let adx = if dx < 0 { -dx } else { dx };
    let ady = if dy < 0 { -dy } else { dy };
    if adx > ady {
        if dx < 0 {
            line_axis_prefix(pix, w, h, true, p1.x as int, p1.y as int,
                p0.x as int, p0.y as int, c1, c0, p0.x as int)
        } else {
            line_axis_prefix(pix, w, h, true, p0.x as int, p0.y as int,
                p1.x as int, p1.y as int, c0, c1, p1.x as int)
        }
    } else {
        if dy < 0 {
            line_axis_prefix(pix, w, h, false, p1.y as int, p1.x as int,
                p0.y as int, p0.x as int, c1, c0, p0.y as int)
        } else {
            line_axis_prefix(pix, w, h, false, p0.y as int, p0.x as int,
                p1.y as int, p1.x as int, c0, c1, p1.y as int)
        }
    }
}

/// Every pixel a flat line writes: the shaded model with one color at
/// both ends.
pub open spec fn line_pixels(
    pix: Seq<Color>, w: int, h: int, p0: Point, p1: Point, c: Color,
) -> Seq<Color> {
    shaded_line_pixels(pix, w, h, p0, c, p1, c)
}

/// The pixels after filling one row from `xl` up to column `x` inclusive
/// with one color; an empty range paints nothing.
pub open spec fn flat_row_prefix(
    pix: Seq<Color>, w: int, h: int, y: int, xl: int, c: Color, x: int,
) -> Seq<Color>
    decreases x + 1 - xl,
{
    if x < xl {
        pix
    } else {
        paint(flat_row_prefix(pix, w, h, y, xl, c, x - 1), w, h, x, y, c)
    }
}

/// The edge column of a color-shaded triangle at row `y`: along the long
/// edge when `long` says so, else along the two short edges.
pub open spec fn tri_x_at(
    y0: int, x0: int, y1: int, x1: int, y2: int, x2: int, long: bool, y: int,
) -> int {
    if long {
        crate::lerp::lerp_at(y0, x0, y2, x2, y)
    } else if y < y1 {
        crate::lerp::lerp_at(y0, x0, y1, x1, y)
    } else {
        crate::lerp::lerp_at(y1, x1, y2, x2, y)
    }
}

/// The left-edge color of a shaded triangle at row `y`, from whichever
/// side is left.
pub open spec fn tri_color_at(
    y0: int, c0: Color, y1: int, c1: Color, y2: int, c2: Color, long: bool, y: int,
) -> Color {
    if long {
        color_lerp(c0, c2, y0, y2, y)
    } else if y < y1 {
        color_lerp(c0, c1, y0, y1, y)
    } else {
        color_lerp(c1, c2, y1, y2, y)
    }
}

/// Every pixel a color-shaded triangle writes, row by row up to `y`:
/// each row runs from the left edge to the right edge inclusive in the
/// row's left-side color, and a row whose right edge crosses left of its
/// left edge paints nothing.
pub open spec fn shaded_tri_prefix(
    pix: Seq<Color>, w: int, h: int,
    y0: int, x0: int, c0: Color, y1: int, x1: int, c1: Color, y2: int, x2: int, c2: Color,
    left_long: bool, y: int,
) -> Seq<Color>
    decreases y + 1 - y0,
{
    if y < y0 {
        pix
    } else {
        let prev = shaded_tri_prefix(
            pix, w, h, y0, x0, c0, y1, x1, c1, y2, x2, c2, left_long, y - 1,
        );
        let xlv = tri_x_at(y0, x0, y1, x1, y2, x2, left_long, y);
        let xrv = tri_x_at(y0, x0, y1, x1, y2, x2, !left_long, y);
        let c = tri_color_at(y0, c0, y1, c1, y2, c2, left_long, y);
        if xlv <= xrv {
            flat_row_prefix(prev, w, h, y, xlv, c, xrv)
        } else {
            prev
        }
    }
}

/// Whether the long edge lies left: both x tables probed at the middle
/// sample of the shared domain, the long edge left exactly when its probe
/// is smaller.
pub open spec fn long_edge_is_left(
    y0: int, x0: int, y1: int, x1: int, y2: int, x2: int,
) -> bool {
    let m = y0 + table_len(y0, y2) / 2;
    crate::lerp::lerp_at(y0, x0, y2, x2, m) < (if m < y1 {
        crate::lerp::lerp_at(y0, x0, y1, x1, m)
    } else {
        crate::lerp::lerp_at(y1, x1, y2, x2, m)
    })
}

/// The three corners of a shaded triangle sorted by ascending `y`, colors
/// carried along, equal corners kept in their incoming order.
pub open spec fn sort_shaded(
    p0: Point, c0: Color, p1: Point, c1: Color, p2: Point, c2: Color,
) -> (Point, Color, Point, Color, Point, Color) {
    let (q0, e0, q1, e1) = if p1.y < p0.y { (p1, c1, p0, c0) } else { (p0, c0, p1, c1) };
    let (r0, f0, r2, f2) = if p2.y < q0.y { (p2, c2, q0, e0) } else { (q0, e0, p2, c2) };
    let (s1, g1, s2, g2) = if r2.y < q1.y { (r2, f2, q1, e1) } else { (q1, e1, r2, f2) };
    (r0, f0, s1, g1, s2, g2)
}

/// The concatenated short-edge table reads exactly as the two-segment
/// interpolator: at every sample index of the joined domain the table
/// value is the value of the piecewise interpolator built from the same
/// three samples.
pub proof fn lemma_table_matches_piecewise(
    y0: i64, y1: i64, y2: i64, d0: i64, d1: i64, d2: i64, i: int,
)
    requires
        y0 <= y1 <= y2,
        y0 <= i <= y2,
    ensures
        (if i < y1 {
            crate::lerp::lerp_at(y0 as int, d0 as int, y1 as int, d1 as int, i)
        } else {
            crate::lerp::lerp_at(y1 as int, d1 as int, y2 as int, d2 as int, i)
        }) == (crate::lerp::PiecewiseLerp {
            a: crate::lerp::Lerp { i0: y0, d0, i1: y1, d1 },
            b: crate::lerp::Lerp { i0: y1, d0: d1, i1: y2, d1: d2 },
        }).at(i),
{
}

impl Rasterizer {
    /// Enumerate the interpolated values at every integer index from
    /// `i0` to `i1`: a degenerate domain gives the single sample `d0`,
    /// and a reversed domain gives the empty table.
    pub fn interpolate(i0: i64, d0: i64, i1: i64, d1: i64) -> (r: Vec<i64>)
        requires
            fits(i0 as int),
            fits(d0 as int),
            fits(i1 as int),
            fits(d1 as int),
        ensures
            r@.len() == if i0 > i1 { 0int } else { table_len(i0 as int, i1 as int) },
            forall|k: int| 0 <= k < r@.len()
                ==> r@[k] == crate::lerp::lerp_at(i0 as int, d0 as int, i1 as int, d1 as int,
                    i0 + k),
            forall|k: int| 0 <= k < r@.len() ==> fits(#[trigger] r@[k] as int),
    {
        let mut ret: Vec<i64> = Vec::new();
        if i0 > i1 {
            return ret;
        }
        if i0 == i1 {
            ret.push(d0);
            return ret;
        }
        let lerp = crate::lerp::Lerp::new(i0, d0, i1, d1);
        let mut i: i64 = i0;
        while i <= i1
            invariant
                i0 <= i <= i1 + 1,
                i0 < i1,
                lerp == (crate::lerp::Lerp { i0, d0, i1, d1 }),
                lerp.wf(),
                ret@.len() == i - i0,
                forall|k: int| 0 <= k < ret@.len()
                    ==> ret@[k] == crate::lerp::lerp_at(i0 as int, d0 as int, i1 as int,
                        d1 as int, i0 + k),
                forall|k: int| 0 <= k < ret@.len() ==> fits(#[trigger] ret@[k] as int),
            decreases i1 + 1 - i,
        {
            let v = lerp.interpolate(i);
            ret.push(v);
            i = i + 1;
        }
        ret
    }

    /// The two side tables of a triangle over its sorted rows: the long
    /// edge enumerated directly, and the two short edges concatenated
    /// with the duplicate sample at the shared row dropped.
    #[verifier::loop_isolation(false)]
    pub fn triangle_interpolate(y0: i64, y1: i64, y2: i64, d0: i64, d1: i64, d2: i64)
        -> (r: (Vec<i64>, Vec<i64>))
        requires
            fits(y0 as int), fits(y1 as int), fits(y2 as int),
            fits(d0 as int), fits(d1 as int), fits(d2 as int),
            y0 <= y1 <= y2,
        ensures
            r.0@.len() == table_len(y0 as int, y2 as int),
            forall|k: int| 0 <= k < r.0@.len()
                ==> r.0@[k] == crate::lerp::lerp_at(y0 as int, d0 as int, y2 as int, d2 as int,
                    y0 + k),
            r.1@.len() == table_len(y0 as int, y2 as int),
            forall|k: int| 0 <= k < r.1@.len()
                ==> r.1@[k] == if y0 + k < y1 {
                    crate::lerp::lerp_at(y0 as int, d0 as int, y1 as int, d1 as int, y0 + k)
                } else {
                    crate::lerp::lerp_at(y1 as int, d1 as int, y2 as int, d2 as int, y0 + k)
                },
            forall|k: int| 0 <= k < r.0@.len() ==> fits(#[trigger] r.0@[k] as int),
            forall|k: int| 0 <= k < r.1@.len() ==> fits(#[trigger] r.1@[k] as int),
    {
        let x02 = Self::interpolate(y0, d0, y2, d2);
        let x01 = Self::interpolate(y0, d0, y1, d1);
        let x12 = Self::interpolate(y1, d1, y2, d2);

        let mut x012: Vec<i64> = Vec::new();
        let take = x01.len() - 1;
        let mut k: usize = 0;
        while k < take
            invariant
                take == x01@.len() - 1,
                x01@.len() == table_len(y0 as int, y1 as int),
                y0 <= y1 <= y2,
                k <= take,
                x012@.len() == k,
                forall|j: int| 0 <= j < x01@.len()
                    ==> x01@[j] == crate::lerp::lerp_at(y0 as int, d0 as int, y1 as int,
                        d1 as int, y0 + j),
                forall|j: int| 0 <= j < k ==> x012@[j] == x01@[j],
                forall|j: int| 0 <= j < x012@.len() ==> fits(#[trigger] x012@[j] as int),
            decreases take - k,
        {
            let v = x01[k];
            x012.push(v);
            k = k + 1;
        }
        let mut k2: usize = 0;
        let n2 = x12.len();
        while k2 < n2
            invariant
                take == table_len(y0 as int, y1 as int) - 1,
                n2 == x12@.len(),
                x12@.len() == table_len(y1 as int, y2 as int),
                y0 <= y1 <= y2,
                k2 <= n2,
                x012@.len() == take + k2,
                forall|j: int| 0 <= j < take
                    ==> x012@[j] == crate::lerp::lerp_at(y0 as int, d0 as int, y1 as int,
                        d1 as int, y0 + j),
                forall|j: int| 0 <= j < x12@.len()
                    ==> x12@[j] == crate::lerp::lerp_at(y1 as int, d1 as int, y2 as int,
                        d2 as int, y1 + j),
                forall|j: int| take <= j < x012@.len() ==> x012@[j] == x12@[j - take],
                forall|j: int| 0 <= j < x012@.len() ==> fits(#[trigger] x012@[j] as int),
            decreases n2 - k2,
        {
            let v = x12[k2];
            x012.push(v);
            k2 = k2 + 1;
        }
        proof {
            assert forall|k3: int| 0 <= k3 < x012@.len() implies x012@[k3] == (if y0 + k3 < y1 {
                crate::lerp::lerp_at(y0 as int, d0 as int, y1 as int, d1 as int, y0 + k3)
            } else {
                crate::lerp::lerp_at(y1 as int, d1 as int, y2 as int, d2 as int, y0 + k3)
            }) by {
                if k3 >= take {
                    assert(x012@[k3] == x12@[k3 - take]);
                    if y0 == y1 {
                    } else {
                        assert(y0 + k3 >= y1);
                    }
                }
            };
        }
        (x02, x012)
    }

    /// Enumerate a two-color gradient at every integer index from `i0`
    /// to `i1`.
    pub fn interpolate_color(i0: i64, d0: Color, i1: i64, d1: Color) -> (r: Vec<Color>)
        requires
            fits(i0 as int),
            fits(i1 as int),
            i0 <= i1,
        ensures
            r@.len() == table_len(i0 as int, i1 as int),
            forall|k: int| 0 <= k < r@.len()
                ==> r@[k] == color_lerp(d0, d1, i0 as int, i1 as int, i0 + k),
    {
        let v0 = d0.to_vec3_scaled();
        let v1 = d1.to_vec3_scaled();
        let lr = crate::lerp::Lerp::new(i0, v0.0, i1, v1.0);
        let lg = crate::lerp::Lerp::new(i0, v0.1, i1, v1.1);
        let lb = crate::lerp::Lerp::new(i0, v0.2, i1, v1.2);
        let mut ret: Vec<Color> = Vec::new();
        if i0 == i1 {
            let c = Color::from_vec3_scaled(Vec3(v0.0, v0.1, v0.2));
            ret.push(c);
            return ret;
        }
        let mut i: i64 = i0;
        while i <= i1
            invariant
                i0 <= i <= i1 + 1,
                i0 < i1,
                lr == (crate::lerp::Lerp { i0, d0: v0.0, i1, d1: v1.0 }),
                lg == (crate::lerp::Lerp { i0, d0: v0.1, i1, d1: v1.1 }),
                lb == (crate::lerp::Lerp { i0, d0: v0.2, i1, d1: v1.2 }),
                lr.wf() && lg.wf() && lb.wf(),
                v0.0 == crate::rasterize::channel_to_scaled(d0.0 as int),
                v0.1 == crate::rasterize::channel_to_scaled(d0.1 as int),
                v0.2 == crate::rasterize::channel_to_scaled(d0.2 as int),
                v1.0 == crate::rasterize::channel_to_scaled(d1.0 as int),
                v1.1 == crate::rasterize::channel_to_scaled(d1.1 as int),
                v1.2 == crate::rasterize::channel_to_scaled(d1.2 as int),
                ret@.len() == i - i0,
                forall|k: int| 0 <= k < ret@.len()
                    ==> ret@[k] == color_lerp(d0, d1, i0 as int, i1 as int, i0 + k),
            decreases i1 + 1 - i,
        {
            let c = Color::from_vec3_scaled(Vec3(
                lr.interpolate(i), lg.interpolate(i), lb.interpolate(i),
            ));
            ret.push(c);
            i = i + 1;
        }
        ret
    }

    /// Draw a box outline from its four front and four back corners in
    /// view space: the back square red, the connecting edges green, the
    /// front square blue.  If any corner projects outside the drawable
    /// range the outline is not started, and the canvas is untouched.
    #[verifier::loop_isolation(false)]
    pub fn draw_cube_wireframe<C: Canvas>(
        &self,
        canvas: &mut C,
        front_vertices: &Vec<Vec3>,
        back_vertices: &Vec<Vec3>,
    )
        requires
            self.wf(),
            old(canvas).inv(),
            front_vertices@.len() == 4,
            back_vertices@.len() == 4,
            forall|k: int| 0 <= k < 4 ==> (#[trigger] front_vertices@[k]).bounded(),
            forall|k: int| 0 <= k < 4 ==> (#[trigger] back_vertices@[k]).bounded(),
        ensures
            final(canvas).inv(),
            final(canvas).width_spec() == old(canvas).width_spec(),
            final(canvas).height_spec() == old(canvas).height_spec(),
            ({
                let w = old(canvas).width_spec();
                let h = old(canvas).height_spec();
                let d = self.d as int;
                let ok = all_proj_ok(front_vertices@, back_vertices@, d,
                    self.cw as int, self.ch as int, self.vw as int, self.vh as int);
                if ok {
                    final(canvas).pix() == wire_cube_pixels(
                        old(canvas).pix(), w, h,
                        proj_point(front_vertices@[0], d, self.cw as int, self.ch as int,
                            self.vw as int, self.vh as int),
                        proj_point(front_vertices@[1], d, self.cw as int, self.ch as int,
                            self.vw as int, self.vh as int),
                        proj_point(front_vertices@[2], d, self.cw as int, self.ch as int,
                            self.vw as int, self.vh as int),
                        proj_point(front_vertices@[3], d, self.cw as int, self.ch as int,
                            self.vw as int, self.vh as int),
                        proj_point(back_vertices@[0], d, self.cw as int, self.ch as int,
                            self.vw as int, self.vh as int),
                        proj_point(back_vertices@[1], d, self.cw as int, self.ch as int,
                            self.vw as int, self.vh as int),
                        proj_point(back_vertices@[2], d, self.cw as int, self.ch as int,
                            self.vw as int, self.vh as int),
                        proj_point(back_vertices@[3], d, self.cw as int, self.ch as int,
                            self.vw as int, self.vh as int),
                    )
                } else {
                    final(canvas).pix() == old(canvas).pix()
                }
            }),
    {
        if front_vertices[0].2 <= 0 || front_vertices[1].2 <= 0 || front_vertices[2].2 <= 0
            || front_vertices[3].2 <= 0 || back_vertices[0].2 <= 0 || back_vertices[1].2 <= 0
            || back_vertices[2].2 <= 0 || back_vertices[3].2 <= 0 {
            return;
        }
        let pf0 = self.project_vertex(front_vertices[0]);
        let pf1 = self.project_vertex(front_vertices[1]);
        let pf2 = self.project_vertex(front_vertices[2]);
        let pf3 = self.project_vertex(front_vertices[3]);
        let pb0 = self.project_vertex(back_vertices[0]);
        let pb1 = self.project_vertex(back_vertices[1]);
        let pb2 = self.project_vertex(back_vertices[2]);
        let pb3 = self.project_vertex(back_vertices[3]);
        match (pf0, pf1, pf2, pf3, pb0, pb1, pb2, pb3) {
            (Some(f0), Some(f1), Some(f2), Some(f3), Some(b0), Some(b1), Some(b2), Some(b3)) => {
                let f0 = Point { x: f0.0, y: f0.1 };
                let f1 = Point { x: f1.0, y: f1.1 };
                let f2 = Point { x: f2.0, y: f2.1 };
                let f3 = Point { x: f3.0, y: f3.1 };
                let b0 = Point { x: b0.0, y: b0.1 };
                let b1 = Point { x: b1.0, y: b1.1 };
                let b2 = Point { x: b2.0, y: b2.1 };
                let b3 = Point { x: b3.0, y: b3.1 };

                // back square
                Self::draw_line(canvas, b0, b1, Color(255, 0, 0));
                Self::draw_line(canvas, b1, b2, Color(255, 0, 0));
                Self::draw_line(canvas, b2, b3, Color(255, 0, 0));
                Self::draw_line(canvas, b3, b0, Color(255, 0, 0));

                // front-to-back edges
                Self::draw_line(canvas, f0, b0, Color(0, 255, 0));
                Self::draw_line(canvas, f1, b1, Color(0, 255, 0));
                Self::draw_line(canvas, f2, b2, Color(0, 255, 0));
                Self::draw_line(canvas, f3, b3, Color(0, 255, 0));

                // front square
                Self::draw_line(canvas, f0, f1, Color(0, 0, 255));
                Self::draw_line(canvas, f1, f2, Color(0, 0, 255));
                Self::draw_line(canvas, f2, f3, Color(0, 0, 255));
                Self::draw_line(canvas, f3, f0, Color(0, 0, 255));
            }
            _ => {}
        }
    }

    /// Draw a box outline bobbed up or down by `bob` and rotated about
    /// the vertical axis through `point` by the angle whose sine and
    /// cosine are given.  Corners that the placement pushes out of the
    /// coordinate range, or that do not project onto the drawable range,
    /// leave the canvas untouched.
    #[verifier::loop_isolation(false)]
    pub fn draw_animated_cube_wireframe<C: Canvas>(
        &self,
        canvas: &mut C,
        front_vertices: &Vec<Vec3>,
        back_vertices: &Vec<Vec3>,
        sin: i64,
        cos: i64,
        bob: i64,
        point: Vec3,
    )
        requires
            self.wf(),
            old(canvas).inv(),
            front_vertices@.len() == 4,
            back_vertices@.len() == 4,
            forall|k: int| 0 <= k < 4 ==> (#[trigger] front_vertices@[k]).bounded(),
            forall|k: int| 0 <= k < 4 ==> (#[trigger] back_vertices@[k]).bounded(),
            -UNIT <= sin <= UNIT,
            -UNIT <= cos <= UNIT,
            fits(bob as int),
            point.bounded(),
            crate::math::m4_bounded(crate::math::m4_rotate_y(sin, cos, point)),
            forall|i: int, j: int| 0 <= i < 4 && 0 <= j < 4
                ==> fits(#[trigger] m4_mul_entry(
                    crate::math::m4_translate(Vec3 { 0: 0i64, 1: bob, 2: 0i64 }),
                    crate::math::m4_rotate_y(sin, cos, point), i, j,
                )),
        ensures
            final(canvas).inv(),
            final(canvas).width_spec() == old(canvas).width_spec(),
            final(canvas).height_spec() == old(canvas).height_spec(),
            ({
                let w = old(canvas).width_spec();
                let h = old(canvas).height_spec();
                let d = self.d as int;
                let m = crate::math::m4_mul_val(
                    crate::math::m4_translate(Vec3 { 0: 0i64, 1: bob, 2: 0i64 }),
                    crate::math::m4_rotate_y(sin, cos, point),
                );
                let in_range = all_apply_ok(m, front_vertices@, back_vertices@);
                let projectable = in_range && all_proj_ok(
                    Seq::new(4, |k: int| apply_point(m, front_vertices@[k])),
                    Seq::new(4, |k: int| apply_point(m, back_vertices@[k])),
                    d, self.cw as int, self.ch as int, self.vw as int, self.vh as int,
                );
                if projectable {
                    final(canvas).pix() == wire_cube_pixels(
                        old(canvas).pix(), w, h,
                        proj_point(apply_point(m, front_vertices@[0]), d, self.cw as int,
                            self.ch as int, self.vw as int, self.vh as int),
                        proj_point(apply_point(m, front_vertices@[1]), d, self.cw as int,
                            self.ch as int, self.vw as int, self.vh as int),
                        proj_point(apply_point(m, front_vertices@[2]), d, self.cw as int,
                            self.ch as int, self.vw as int, self.vh as int),
                        proj_point(apply_point(m, front_vertices@[3]), d, self.cw as int,
                            self.ch as int, self.vw as int, self.vh as int),
                        proj_point(apply_point(m, back_vertices@[0]), d, self.cw as int,
                            self.ch as int, self.vw as int, self.vh as int),
                        proj_point(apply_point(m, back_vertices@[1]), d, self.cw as int,
                            self.ch as int, self.vw as int, self.vh as int),
                        proj_point(apply_point(m, back_vertices@[2]), d, self.cw as int,
                            self.ch as int, self.vw as int, self.vh as int),
                        proj_point(apply_point(m, back_vertices@[3]), d, self.cw as int,
                            self.ch as int, self.vw as int, self.vh as int),
                    )
                } else {
                    final(canvas).pix() == old(canvas).pix()
                }
            }),
    {
        let rotation_matrix = Mat4::rotate_y_axis(sin, cos, point);
        let translation_matrix = Mat4::translate(Vec3(0, bob, 0));
        let transform = translation_matrix.mul(&rotation_matrix);
        proof {
            crate::math::lemma_entries_bounded(transform);
        }
        let mut tf: Vec<Vec3> = Vec::new();
        let mut tb: Vec<Vec3> = Vec::new();
        let mut k: usize = 0;
        while k < 4
            invariant
                k <= 4,
                front_vertices@.len() == 4,
                back_vertices@.len() == 4,
                forall|j: int| 0 <= j < 4 ==> (#[trigger] front_vertices@[j]).bounded(),
                forall|j: int| 0 <= j < 4 ==> (#[trigger] back_vertices@[j]).bounded(),
                crate::math::m4_bounded(transform),
                tf@.len() == k,
                tb@.len() == k,
                forall|j: int| 0 <= j < k
                    ==> apply_in_range(transform, #[trigger] front_vertices@[j])
                        && tf@[j] == apply_point(transform, front_vertices@[j]),
                forall|j: int| 0 <= j < k
                    ==> apply_in_range(transform, #[trigger] back_vertices@[j])
                        && tb@[j] == apply_point(transform, back_vertices@[j]),
            decreases 4 - k,
        {
            let pf = transform.mul_vec4(&front_vertices[k].to_point_vec4());
            let pb = transform.mul_vec4(&back_vertices[k].to_point_vec4());
            if pf.0 < -COORD_MAX || pf.0 > COORD_MAX || pf.1 < -COORD_MAX || pf.1 > COORD_MAX
                || pf.2 < -COORD_MAX || pf.2 > COORD_MAX
                || pb.0 < -COORD_MAX || pb.0 > COORD_MAX || pb.1 < -COORD_MAX
                || pb.1 > COORD_MAX || pb.2 < -COORD_MAX || pb.2 > COORD_MAX {
                proof {
                    assert(!apply_in_range(transform, front_vertices@[k as int])
                        || !apply_in_range(transform, back_vertices@[k as int]));
                }
                return;
            }
            tf.push(pf.drop_fourth_component());
            tb.push(pb.drop_fourth_component());
            k = k + 1;
        }
        proof {
            assert forall|j: int| 0 <= j < 4 implies (#[trigger] tf@[j]).bounded() by {
                assert(apply_in_range(transform, front_vertices@[j]));
            };
            assert forall|j: int| 0 <= j < 4 implies (#[trigger] tb@[j]).bounded() by {
                assert(apply_in_range(transform, back_vertices@[j]));
            };
        }
        self.draw_cube_wireframe(canvas, &tf, &tb);
    }

    /// Outline every triangle of a model in its own flat color, skipping
    /// a triangle whose corners do not all project onto the drawable
    /// range.
    #[verifier::loop_isolation(false)]
    pub fn draw_cube_wireframe_obj<C: Canvas>(&self, canvas: &mut C, cube: &crate::object::Cube)
        requires
            self.wf(),
            old(canvas).inv(),
            forall|k: int| 0 <= k < cube.triangles@.len()
                ==> (#[trigger] cube.triangles@[k]).bounded(),
        ensures
            final(canvas).inv(),
            final(canvas).width_spec() == old(canvas).width_spec(),
            final(canvas).height_spec() == old(canvas).height_spec(),
            final(canvas).pix() == wire_model_prefix(
                old(canvas).pix(), old(canvas).width_spec(), old(canvas).height_spec(),
                cube.triangles@, self.d as int, self.cw as int, self.ch as int,
                self.vw as int, self.vh as int, cube.triangles@.len() as int,
            ),
    {
        let ghost op = canvas.pix();
        let mut k: usize = 0;
        while k < cube.triangles.len()
            invariant
                k <= cube.triangles@.len(),
                canvas.inv(),
                canvas.width_spec() == old(canvas).width_spec(),
                canvas.height_spec() == old(canvas).height_spec(),
                canvas.pix() == wire_model_prefix(
                    op, old(canvas).width_spec(), old(canvas).height_spec(),
                    cube.triangles@, self.d as int, self.cw as int, self.ch as int,
                    self.vw as int, self.vh as int, k as int,
                ),
            decreases cube.triangles@.len() - k,
        {
            let t = &cube.triangles[k];
            if t.p0.2 > 0 && t.p1.2 > 0 && t.p2.2 > 0 {
                match (
                    self.project_vertex(t.p0),
                    self.project_vertex(t.p1),
                    self.project_vertex(t.p2),
                ) {
                    (Some(q0), Some(q1), Some(q2)) => {
                        Self::draw_wireframe_triangle(
                            canvas,
                            Point { x: q0.0, y: q0.1 },
                            Point { x: q1.0, y: q1.1 },
                            Point { x: q2.0, y: q2.1 },
                            t.color,
                        );
                    }
                    _ => {}
                }
            }
            k = k + 1;
        }
    }

    /// Draw every triangle of a flat-colored model already placed in
    /// view space, projecting each vertex through the rasterizer's
    /// camera: the state afterwards is exactly the fold of the
    /// per-triangle draw over the model, as `cube_prefix` states.  A
    /// triangle whose projection leaves the drawable range is skipped:
    /// the simple visibility test.
    #[verifier::loop_isolation(false)]
    #[verifier::spinoff_prover]
    #[verifier::rlimit(100)]
    pub fn draw_cube<C: Canvas>(&mut self, canvas: &mut C, cube: &crate::object::Cube)
        requires
            old(self).wf(),
            old(canvas).inv(),
            old(canvas).width_spec() == old(self).cw,
            old(canvas).height_spec() == old(self).ch,
            forall|k: int| 0 <= k < cube.triangles@.len()
                ==> view_triangle_ok(#[trigger] cube.triangles@[k]),
        ensures
            final(self).wf(),
            final(self).same_setup(old(self)),
            final(canvas).inv(),
            final(canvas).width_spec() == old(canvas).width_spec(),
            final(canvas).height_spec() == old(canvas).height_spec(),
            (final(self).depth_buffer@, final(canvas).pix()) == cube_prefix(
                old(self).depth_buffer@, old(canvas).pix(),
                old(self).cw as int, old(self).ch as int, cube.triangles@,
                if old(self).shading is Phong { 124518i64 } else { 58982i64 },
                old(self).shading is Phong,
                old(self).d as int, old(self).cw as int, old(self).ch as int,
                old(self).vw as int, old(self).vh as int,
                cube.triangles@.len() as int,
            ),
    {
        proof {
            old(canvas).inv_facts();
        }
        let ghost od = self.depth_buffer@;
        let ghost op = canvas.pix();
        let ghost li_s: i64 = if self.shading is Phong { 124518i64 } else { 58982i64 };
        let ghost phong = self.shading is Phong;
        let origin = Vec3(0, 0, 0);
        let mut k: usize = 0;
        while k < cube.triangles.len()
            invariant
                k <= cube.triangles@.len(),
                self.wf(),
                self.same_setup(old(self)),
                canvas.inv(),
                canvas.width_spec() == old(canvas).width_spec(),
                canvas.height_spec() == old(canvas).height_spec(),
                (self.depth_buffer@, canvas.pix()) == cube_prefix(
                    od, op, self.cw as int, self.ch as int, cube.triangles@,
                    li_s, phong, self.d as int, self.cw as int, self.ch as int,
                    self.vw as int, self.vh as int, k as int,
                ),
            decreases cube.triangles@.len() - k,
        {
            let t = &cube.triangles[k];
            proof {
                assert(view_triangle_ok(cube.triangles@[k as int]));
            }
            let pr0 = self.project_vertex(t.p0);
            let pr1 = self.project_vertex(t.p1);
            let pr2 = self.project_vertex(t.p2);
            match (pr0, pr1, pr2) {
                (Some(q0), Some(q1), Some(q2)) => {
                    self.draw_triangle(
                        canvas, origin, origin, &origin, t, None,
                        Point { x: q0.0, y: q0.1 },
                        Point { x: q1.0, y: q1.1 },
                        Point { x: q2.0, y: q2.1 },
                    );
                }
                _ => {}
            }
            k = k + 1;
        }
    }

    /// Project a model's triangles through a placement matrix and draw
    /// them: geometry is taken to view space by the view matrix and to
    /// clip space by the view-projection matrix, and the state
    /// afterwards is exactly the fold `render_prefix` states.  A
    /// triangle that leaves the depth or coordinate range, or whose
    /// projection does, is skipped (the simple visibility test).
    #[verifier::loop_isolation(false)]
    #[verifier::spinoff_prover]
    #[verifier::rlimit(100)]
    pub fn render_model<C: Canvas>(
        &mut self,
        canvas: &mut C,
        triangles: &Vec<Triangle>,
        transform_matrix: &Mat4,
        texture: Option<&Texture>,
    )
        requires
            old(self).wf(),
            old(canvas).inv(),
            old(canvas).width_spec() == old(self).cw,
            old(canvas).height_spec() == old(self).ch,
            m4_bounded(*transform_matrix),
            -0x2000_0000 <= old(self).view_matrix.m03 <= 0x2000_0000,
            -0x2000_0000 <= old(self).view_matrix.m13 <= 0x2000_0000,
            -0x2000_0000 <= old(self).view_matrix.m23 <= 0x2000_0000,
            forall|i: int, j: int| 0 <= i < 4 && 0 <= j < 4
                ==> fits(#[trigger] m4_mul_entry(
                    old(self).view_projection_matrix, *transform_matrix, i, j,
                )),
            forall|i: int, j: int| 0 <= i < 4 && 0 <= j < 4
                ==> fits(#[trigger] m4_mul_entry(
                    old(self).view_matrix, *transform_matrix, i, j,
                )),
            forall|k: int| 0 <= k < triangles@.len()
                ==> model_triangle_ok(#[trigger] triangles@[k]),
            (match texture {
                Some(t) => t.wf(),
                None => true,
            }),
        ensures
            final(self).wf(),
            final(self).same_setup(old(self)),
            final(canvas).inv(),
            final(canvas).width_spec() == old(canvas).width_spec(),
            final(canvas).height_spec() == old(canvas).height_spec(),
            (final(self).depth_buffer@, final(canvas).pix()) == render_prefix(
                old(self).depth_buffer@, old(canvas).pix(),
                old(self).cw as int, old(self).ch as int, triangles@,
                crate::math::m4_mul_val(old(self).view_matrix, *transform_matrix),
                crate::math::m4_mul_val(old(self).view_projection_matrix, *transform_matrix),
                (Vec3 {
                    0: old(self).view_matrix.m03,
                    1: old(self).view_matrix.m13,
                    2: old(self).view_matrix.m23,
                }),
                if old(self).shading is Phong {
                    Vec3 { 0: -98304i64, 1: -65536i64, 2: 65536i64 }
                } else {
                    Vec3 { 0: 0i64, 1: 26214i64, 2: 65536i64 }
                },
                if old(self).shading is Phong { 124518i64 } else { 58982i64 },
                old(self).shading is Phong,
                texture,
                old(self).d as int, old(self).cw as int, old(self).ch as int,
                old(self).vw as int, old(self).vh as int,
                triangles@.len() as int,
            ),
    {
        proof {
            old(canvas).inv_facts();
        }
        let ghost od = self.depth_buffer@;
        let ghost op = canvas.pix();
        let ghost li_s: i64 = if self.shading is Phong { 124518i64 } else { 58982i64 };
        let ghost phong = self.shading is Phong;
        let final_transform = self.view_projection_matrix.mul(transform_matrix);
        let view_transform = self.view_matrix.mul(transform_matrix);
        proof {
            crate::math::lemma_entries_bounded(final_transform);
            crate::math::lemma_entries_bounded(view_transform);
        }
        let transformed_center = Vec3(0, 0, 0);
        let light_direction = if matches!(self.shading, Shading::Phong) {
            Vec3(-98304, -65536, 65536)
        } else {
            Vec3(0, 26214, 65536)
        };
        let camera_pos = self.view_matrix.mul_vec4(&Vec4(0, 0, 0, UNIT))
            .drop_fourth_component();
        proof {
            let m = self.view_matrix;
            let hv = Vec4 { 0: 0i64, 1: 0i64, 2: 0i64, 3: UNIT as i64 };
            lemma_div_multiples_vanish(m.m03 as int, UNIT as int);
            lemma_div_multiples_vanish(m.m13 as int, UNIT as int);
            lemma_div_multiples_vanish(m.m23 as int, UNIT as int);
            assert(m4_entry(m, 0, 0) * hv.0 + m4_entry(m, 0, 1) * hv.1
                + m4_entry(m, 0, 2) * hv.2 + m4_entry(m, 0, 3) * hv.3
                == (UNIT as int) * m.m03);
            assert(m4_entry(m, 1, 0) * hv.0 + m4_entry(m, 1, 1) * hv.1
                + m4_entry(m, 1, 2) * hv.2 + m4_entry(m, 1, 3) * hv.3
                == (UNIT as int) * m.m13);
            assert(m4_entry(m, 2, 0) * hv.0 + m4_entry(m, 2, 1) * hv.1
                + m4_entry(m, 2, 2) * hv.2 + m4_entry(m, 2, 3) * hv.3
                == (UNIT as int) * m.m23);
            assert(crate::math::m4_apply_entry(m, hv, 0) == m.m03 as int);
            assert(crate::math::m4_apply_entry(m, hv, 1) == m.m13 as int);
            assert(crate::math::m4_apply_entry(m, hv, 2) == m.m23 as int);
            assert(camera_pos == (Vec3 {
                0: self.view_matrix.m03,
                1: self.view_matrix.m13,
                2: self.view_matrix.m23,
            }));
        }

        let mut k: usize = 0;
        while k < triangles.len()
            invariant
                k <= triangles@.len(),
                self.wf(),
                self.same_setup(old(self)),
                canvas.inv(),
                canvas.width_spec() == old(canvas).width_spec(),
                canvas.height_spec() == old(canvas).height_spec(),
                (self.depth_buffer@, canvas.pix()) == render_prefix(
                    od, op, self.cw as int, self.ch as int, triangles@,
                    view_transform, final_transform, camera_pos, light_direction,
                    li_s, phong, texture, self.d as int, self.cw as int, self.ch as int,
                    self.vw as int, self.vh as int, k as int,
                ),
            decreases triangles@.len() - k,
        {
            let t = &triangles[k];
            let tv = t.transform(&view_transform, &final_transform);
            proof {
                assert(tv == transform_spec(triangles@[k as int], view_transform,
                    final_transform));
            }
            if Self::triangle_in_range(&tv) {
                match (
                    self.project_clip_vertex(&final_transform, t.p0),
                    self.project_clip_vertex(&final_transform, t.p1),
                    self.project_clip_vertex(&final_transform, t.p2),
                ) {
                    (Some(q0), Some(q1), Some(q2)) => {
                        self.draw_triangle(
                            canvas, transformed_center, light_direction, &camera_pos,
                            &tv, texture, q0, q1, q2,
                        );
                    }
                    _ => {}
                }
            }
            k = k + 1;
        }
    }

    /// A view-space triangle the rasterizer can draw: inside the
    /// coordinate range, in front of the near plane, unit-ranged normals.
    fn triangle_in_range(t: &Triangle) -> (r: bool)
        ensures
            r <==> view_triangle_ok(*t),
    {
        let verts_ok = t.p0.0 >= -0x2000_0000 && t.p0.0 <= 0x2000_0000
            && t.p0.1 >= -0x2000_0000 && t.p0.1 <= 0x2000_0000
            && t.p0.2 >= NEAR_PLANE && t.p0.2 <= 0x2000_0000
            && t.p1.0 >= -0x2000_0000 && t.p1.0 <= 0x2000_0000
            && t.p1.1 >= -0x2000_0000 && t.p1.1 <= 0x2000_0000
            && t.p1.2 >= NEAR_PLANE && t.p1.2 <= 0x2000_0000
            && t.p2.0 >= -0x2000_0000 && t.p2.0 <= 0x2000_0000
            && t.p2.1 >= -0x2000_0000 && t.p2.1 <= 0x2000_0000
            && t.p2.2 >= NEAR_PLANE && t.p2.2 <= 0x2000_0000;
        let normals_ok = match &t.normals {
            Some(ns) => ns.0.0 >= -UNIT && ns.0.0 <= UNIT
                && ns.0.1 >= -UNIT && ns.0.1 <= UNIT
                && ns.0.2 >= -UNIT && ns.0.2 <= UNIT
                && ns.1.0 >= -UNIT && ns.1.0 <= UNIT
                && ns.1.1 >= -UNIT && ns.1.1 <= UNIT
                && ns.1.2 >= -UNIT && ns.1.2 <= UNIT
                && ns.2.0 >= -UNIT && ns.2.0 <= UNIT
                && ns.2.1 >= -UNIT && ns.2.1 <= UNIT
                && ns.2.2 >= -UNIT && ns.2.2 <= UNIT,
            None => true,
        };
        let uvs_ok = match &t.uvs {
            Some(uvs) => uvs.0.0 >= 0 && uvs.0.0 <= UNIT && uvs.0.1 >= 0 && uvs.0.1 <= UNIT
                && uvs.1.0 >= 0 && uvs.1.0 <= UNIT && uvs.1.1 >= 0 && uvs.1.1 <= UNIT
                && uvs.2.0 >= 0 && uvs.2.0 <= UNIT && uvs.2.1 >= 0 && uvs.2.1 <= UNIT,
            None => true,
        };
        verts_ok && normals_ok && uvs_ok
    }

    /// Take a model-space vertex to clip space and divide out `w`: the
    /// point `clip_point` states, or nothing exactly when the point is
    /// behind the camera or the quotient leaves the drawable range.
    fn project_clip_vertex(&self, m: &Mat4, v: Vec3) -> (r: Option<Point>)
        requires
            self.wf(),
            m4_bounded(*m),
            v.bounded(),
        ensures
            r == if clip_ok(*m, v) { Some(clip_point(*m, v)) } else { None::<Point> },
            r matches Some(p) ==> p.bounded(),
    {
        let pv = m.mul_vec4(&v.to_point_vec4());
        if pv.3 <= 0 {
            return None;
        }
        let px = div_i64(pv.0, pv.3);
        let py = div_i64(pv.1, pv.3);
        if px < -COORD_MAX || px > COORD_MAX || py < -COORD_MAX || py > COORD_MAX {
            return None;
        }
        Some(Point { x: px, y: py })
    }

    /// Set the shading an instance asks for, then draw its model through
    /// its placement matrix: afterwards the state is exactly the
    /// `render_prefix` fold under the instance's shading and matrix.
    pub fn render_instance<C: Canvas>(
        &mut self,
        canvas: &mut C,
        instance: &crate::object::Instance,
        triangles: &Vec<Triangle>,
        texture: Option<&Texture>,
    )
        requires
            old(self).wf(),
            old(canvas).inv(),
            old(canvas).width_spec() == old(self).cw,
            old(canvas).height_spec() == old(self).ch,
            m4_bounded(instance.transform_matrix),
            -0x2000_0000 <= old(self).view_matrix.m03 <= 0x2000_0000,
            -0x2000_0000 <= old(self).view_matrix.m13 <= 0x2000_0000,
            -0x2000_0000 <= old(self).view_matrix.m23 <= 0x2000_0000,
            forall|i: int, j: int| 0 <= i < 4 && 0 <= j < 4
                ==> fits(#[trigger] m4_mul_entry(
                    old(self).view_projection_matrix, instance.transform_matrix, i, j,
                )),
            forall|i: int, j: int| 0 <= i < 4 && 0 <= j < 4
                ==> fits(#[trigger] m4_mul_entry(
                    old(self).view_matrix, instance.transform_matrix, i, j,
                )),
            forall|k: int| 0 <= k < triangles@.len()
                ==> model_triangle_ok(#[trigger] triangles@[k]),
            (match texture {
                Some(t) => t.wf(),
                None => true,
            }),
        ensures
            final(self).wf(),
            final(self).shading == instance.shading,
            final(self).cw == old(self).cw && final(self).ch == old(self).ch,
            final(self).vw == old(self).vw && final(self).vh == old(self).vh,
            final(self).d == old(self).d,
            final(self).view_projection_matrix == old(self).view_projection_matrix,
            final(self).view_matrix == old(self).view_matrix,
            final(self).lights@ == old(self).lights@,
            final(canvas).inv(),
            final(canvas).width_spec() == old(canvas).width_spec(),
            final(canvas).height_spec() == old(canvas).height_spec(),
            (final(self).depth_buffer@, final(canvas).pix()) == render_prefix(
                old(self).depth_buffer@, old(canvas).pix(),
                old(self).cw as int, old(self).ch as int, triangles@,
                crate::math::m4_mul_val(old(self).view_matrix, instance.transform_matrix),
                crate::math::m4_mul_val(
                    old(self).view_projection_matrix, instance.transform_matrix,
                ),
                (Vec3 {
                    0: old(self).view_matrix.m03,
                    1: old(self).view_matrix.m13,
                    2: old(self).view_matrix.m23,
                }),
                if instance.shading is Phong {
                    Vec3 { 0: -98304i64, 1: -65536i64, 2: 65536i64 }
                } else {
                    Vec3 { 0: 0i64, 1: 26214i64, 2: 65536i64 }
                },
                if instance.shading is Phong { 124518i64 } else { 58982i64 },
                instance.shading is Phong,
                texture,
                old(self).d as int, old(self).cw as int, old(self).ch as int,
                old(self).vw as int, old(self).vh as int,
                triangles@.len() as int,
            ),
    {
        self.shading = instance.shading();
        self.render_model(canvas, triangles, &instance.transform_matrix, texture);
    }

    /// The central routine: scanline-fill one triangle with
    /// depth-tested, perspective-correct, lit pixels.
    ///
    /// `triangle` is the view-space geometry (its depths feed the depth
    /// buffer and the lighting); `p0`..`p2` are its projected screen
    /// points.  The contract pins the whole effect: the depth buffer and
    /// the canvas afterwards equal `tri_draw` of the state before, which
    /// is unchanged for a triangle facing away from `center` and
    /// otherwise fills every scanline between the sorted rows, column by
    /// column through the depth test.
    #[verifier::spinoff_prover]
    #[verifier::rlimit(100)]
    pub fn draw_triangle<C: Canvas>(
        &mut self,
        canvas: &mut C,
        center: Vec3,
        light_direction: Vec3,
        camera_pos: &Vec3,
        triangle: &Triangle,
        texture: Option<&Texture>,
        p0: Point,
        p1: Point,
        p2: Point,
    )
        requires
            old(self).wf(),
            old(canvas).inv(),
            old(canvas).width_spec() == old(self).cw,
            old(canvas).height_spec() == old(self).ch,
            vec3_small(center),
            vec3_small(*camera_pos),
            triangle.bounded(),
            NEAR_PLANE <= triangle.p0.2,
            NEAR_PLANE <= triangle.p1.2,
            NEAR_PLANE <= triangle.p2.2,
            -4 * UNIT <= light_direction.0 <= 4 * UNIT,
            -4 * UNIT <= light_direction.1 <= 4 * UNIT,
            -4 * UNIT <= light_direction.2 <= 4 * UNIT,
            (match triangle.normals {
                Some(ns) => -UNIT <= ns.0.0 <= UNIT && -UNIT <= ns.0.1 <= UNIT
                    && -UNIT <= ns.0.2 <= UNIT && -UNIT <= ns.1.0 <= UNIT
                    && -UNIT <= ns.1.1 <= UNIT && -UNIT <= ns.1.2 <= UNIT
                    && -UNIT <= ns.2.0 <= UNIT && -UNIT <= ns.2.1 <= UNIT
                    && -UNIT <= ns.2.2 <= UNIT,
                None => true,
            }),
            (match triangle.uvs {
                Some(uvs) => 0 <= uvs.0.0 <= UNIT && 0 <= uvs.0.1 <= UNIT
                    && 0 <= uvs.1.0 <= UNIT && 0 <= uvs.1.1 <= UNIT
                    && 0 <= uvs.2.0 <= UNIT && 0 <= uvs.2.1 <= UNIT,
                None => true,
            }),
            p0.bounded(),
            p1.bounded(),
            p2.bounded(),
            (match texture {
                Some(t) => t.wf(),
                None => true,
            }),
        ensures
            final(self).wf(),
            final(self).same_setup(old(self)),
            final(canvas).inv(),
            final(canvas).width_spec() == old(canvas).width_spec(),
            final(canvas).height_spec() == old(canvas).height_spec(),
            Self::cull_dot(*triangle, center) < 0
                ==> final(canvas).pix() == old(canvas).pix()
                    && final(self).depth_buffer@ == old(self).depth_buffer@,
            (final(self).depth_buffer@, final(canvas).pix()) == tri_draw(
                old(self).depth_buffer@, old(canvas).pix(),
                old(self).cw as int, old(self).ch as int,
                *triangle, center, *camera_pos, light_direction,
                if old(self).shading is Phong { 124518i64 } else { 58982i64 },
                old(self).shading is Phong, texture, p0, p1, p2,
                old(self).d as int, old(self).cw as int, old(self).ch as int,
                old(self).vw as int, old(self).vh as int,
            ),
    {
        proof {
            old(canvas).inv_facts();
        }
        if self.should_cull(triangle, center) {
            return;
        }
        let color = triangle.color;
        let ghost od = self.depth_buffer@;
        let ghost op = canvas.pix();

        // Sort so sp0.y <= sp1.y <= sp2.y, carrying the vertex indices.
        let mut sp0 = p0;
        let mut sp1 = p1;
        let mut sp2 = p2;
        let mut i0: u8 = 0;
        let mut i1: u8 = 1;
        let mut i2: u8 = 2;
        if sp1.y < sp0.y {
            let tp = sp0; sp0 = sp1; sp1 = tp;
            let ti = i0; i0 = i1; i1 = ti;
        }
        if sp2.y < sp0.y {
            let tp = sp0; sp0 = sp2; sp2 = tp;
            let ti = i0; i0 = i2; i2 = ti;
        }
        if sp2.y < sp1.y {
            let tp = sp1; sp1 = sp2; sp2 = tp;
            let ti = i1; i1 = i2; i2 = ti;
        }
        proof {
            assert(sp0.y <= sp1.y <= sp2.y);
            assert((sp0, i0 as int, sp1, i1 as int, sp2, i2 as int)
                == sorted_points(p0, p1, p2));
        }

        let v0 = triangle.vertex(i0);
        let v1 = triangle.vertex(i1);
        let v2 = triangle.vertex(i2);
        let (z0, z1, z2) = (v0.2, v1.2, v2.2);

        // The unit face normal, or zero for a degenerate face.
        let fnorm = triangle.normal();
        let gw = Ghost(0x2000_0000_0000_0000int);
        let nw: i128 = crate::fixed::mul_bounded_i128(fnorm.0 as i128, fnorm.0 as i128, gw, gw)
            + crate::fixed::mul_bounded_i128(fnorm.1 as i128, fnorm.1 as i128, gw, gw)
            + crate::fixed::mul_bounded_i128(fnorm.2 as i128, fnorm.2 as i128, gw, gw);
        let normal_unit = if nw == 0 {
            Vec3(0, 0, 0)
        } else {
            proof {
                crate::math::lemma_norm2_nonneg(fnorm);
            }
            fnorm.normalize_wide()
        };
        proof {
            assert(normal_unit == face_unit_normal(*triangle));
        }
        let (n0, n1, n2) = match &triangle.normals {
            Some(ns) => (pick_vec3(ns, i0), pick_vec3(ns, i1), pick_vec3(ns, i2)),
            None => (normal_unit, normal_unit, normal_unit),
        };

        let li: i64 = if matches!(self.shading, Shading::Phong) { 124518 } else { 58982 };
        let light = Light::Directional(li, light_direction);
        let ghost phong = self.shading is Phong;

        // Edge interpolators for x over the rows.
        let (x_left, x_right, x02_is_left) = crate::lerp::triangle_lerp_and_calculate_left(
            sp0.y, sp1.y, sp2.y, sp0.x, sp1.x, sp2.x,
        );
        proof {
            assert(x02_is_left == long_is_left_probe(sp0, sp1, sp2));
        }

        // Inverse depths at the vertices, and their interpolators.
        proof {
            lemma_inv_depth_bounds(z0 as int);
            lemma_inv_depth_bounds(z1 as int);
            lemma_inv_depth_bounds(z2 as int);
        }
        let iz0 = div_i64(0x1_0000_0000, z0);
        let iz1 = div_i64(0x1_0000_0000, z1);
        let iz2 = div_i64(0x1_0000_0000, z2);
        let (z_left, z_right) = crate::lerp::triangle_lerp(
            sp0.y, sp1.y, sp2.y, iz0, iz1, iz2, x02_is_left,
        );

        // Per-vertex illumination for Gouraud shading.
        let illu0 = Self::compute_illumination(v0, camera_pos, normal_unit, &light).unwrap();
        let illu1 = Self::compute_illumination(v1, camera_pos, normal_unit, &light).unwrap();
        let illu2 = Self::compute_illumination(v2, camera_pos, normal_unit, &light).unwrap();
        let (i_left, i_right) = crate::lerp::triangle_lerp(
            sp0.y, sp1.y, sp2.y, illu0, illu1, illu2, x02_is_left,
        );

        // Per-vertex normals for Phong shading.
        let (nx_left, nx_right) = crate::lerp::triangle_lerp(
            sp0.y, sp1.y, sp2.y, n0.0, n1.0, n2.0, x02_is_left,
        );
        let (ny_left, ny_right) = crate::lerp::triangle_lerp(
            sp0.y, sp1.y, sp2.y, n0.1, n1.1, n2.1, x02_is_left,
        );
        let (nz_left, nz_right) = crate::lerp::triangle_lerp(
            sp0.y, sp1.y, sp2.y, n0.2, n1.2, n2.2, x02_is_left,
        );

        // Texture coordinates divided by depth, for perspective-correct
        // sampling; the samples ride along for the row interpolators.
        let uvz = match &triangle.uvs {
            Some(uvs) => {
                let t0 = pick_vec2(uvs, i0);
                let t1 = pick_vec2(uvs, i1);
                let t2 = pick_vec2(uvs, i2);
                proof {
                    lemma_uv_over_z_bounds(t0.0 as int, z0 as int);
                    lemma_uv_over_z_bounds(t0.1 as int, z0 as int);
                    lemma_uv_over_z_bounds(t1.0 as int, z1 as int);
                    lemma_uv_over_z_bounds(t1.1 as int, z1 as int);
                    lemma_uv_over_z_bounds(t2.0 as int, z2 as int);
                    lemma_uv_over_z_bounds(t2.1 as int, z2 as int);
                }
                let u0 = div_i64(mul_i64(t0.0, UNIT), z0);
                let u1 = div_i64(mul_i64(t1.0, UNIT), z1);
                let u2 = div_i64(mul_i64(t2.0, UNIT), z2);
                let w0 = div_i64(mul_i64(t0.1, UNIT), z0);
                let w1 = div_i64(mul_i64(t1.1, UNIT), z1);
                let w2 = div_i64(mul_i64(t2.1, UNIT), z2);
                let (ul, ur) = crate::lerp::triangle_lerp(
                    sp0.y, sp1.y, sp2.y, u0, u1, u2, x02_is_left,
                );
                let (vl, vr) = crate::lerp::triangle_lerp(
                    sp0.y, sp1.y, sp2.y, w0, w1, w2, x02_is_left,
                );
                Some((ul, ur, vl, vr, u0, u1, u2, w0, w1, w2))
            }
            None => None,
        };
        let ghost uvz_s: Option<((i64, i64, i64), (i64, i64, i64))> = match uvz {
            Some(t) => Some(((t.4, t.5, t.6), (t.7, t.8, t.9))),
            None => None,
        };

        // Scanline loop.
        let mut y: i64 = sp0.y;
        while y <= sp2.y
            invariant
                sp0.y <= y <= sp2.y + 1,
                sp0.y <= sp1.y <= sp2.y,
                fits(sp0.y as int) && fits(sp2.y as int),
                self.wf(),
                self.same_setup(old(self)),
                canvas.inv(),
                canvas.width_spec() == old(canvas).width_spec(),
                canvas.height_spec() == old(canvas).height_spec(),
                canvas.width_spec() == self.cw,
                canvas.height_spec() == self.ch,
                phong == (self.shading is Phong),
                (self.depth_buffer@, canvas.pix()) == tri_fill(
                    od, op, self.cw as int, self.ch as int, sp0, sp1, sp2,
                    (iz0, iz1, iz2), (illu0, illu1, illu2), (n0, n1, n2), uvz_s,
                    color, texture, *camera_pos, li, light_direction, phong,
                    self.d as int, self.cw as int, self.ch as int,
                    self.vw as int, self.vh as int, y - 1,
                ),
                x02_is_left == long_is_left_probe(sp0, sp1, sp2),
                x_left == side_kind(sp0.y, sp0.x, sp1.y, sp1.x, sp2.y, sp2.x, x02_is_left),
                x_right == side_kind(sp0.y, sp0.x, sp1.y, sp1.x, sp2.y, sp2.x, !x02_is_left),
                z_left == side_kind(sp0.y, iz0, sp1.y, iz1, sp2.y, iz2, x02_is_left),
                z_right == side_kind(sp0.y, iz0, sp1.y, iz1, sp2.y, iz2, !x02_is_left),
                i_left == side_kind(sp0.y, illu0, sp1.y, illu1, sp2.y, illu2, x02_is_left),
                i_right == side_kind(sp0.y, illu0, sp1.y, illu1, sp2.y, illu2, !x02_is_left),
                nx_left == side_kind(sp0.y, n0.0, sp1.y, n1.0, sp2.y, n2.0, x02_is_left),
                nx_right == side_kind(sp0.y, n0.0, sp1.y, n1.0, sp2.y, n2.0, !x02_is_left),
                ny_left == side_kind(sp0.y, n0.1, sp1.y, n1.1, sp2.y, n2.1, x02_is_left),
                ny_right == side_kind(sp0.y, n0.1, sp1.y, n1.1, sp2.y, n2.1, !x02_is_left),
                nz_left == side_kind(sp0.y, n0.2, sp1.y, n1.2, sp2.y, n2.2, x02_is_left),
                nz_right == side_kind(sp0.y, n0.2, sp1.y, n1.2, sp2.y, n2.2, !x02_is_left),
                (match uvz {
                    Some(t) => uvz_s == Some(((t.4, t.5, t.6), (t.7, t.8, t.9)))
                        && t.0 == side_kind(sp0.y, t.4, sp1.y, t.5, sp2.y, t.6, x02_is_left)
                        && t.1 == side_kind(sp0.y, t.4, sp1.y, t.5, sp2.y, t.6, !x02_is_left)
                        && t.2 == side_kind(sp0.y, t.7, sp1.y, t.8, sp2.y, t.9, x02_is_left)
                        && t.3 == side_kind(sp0.y, t.7, sp1.y, t.8, sp2.y, t.9, !x02_is_left)
                        && 0 <= t.4 <= 0x10_0000 && 0 <= t.5 <= 0x10_0000
                        && 0 <= t.6 <= 0x10_0000 && 0 <= t.7 <= 0x10_0000
                        && 0 <= t.8 <= 0x10_0000 && 0 <= t.9 <= 0x10_0000,
                    None => uvz_s is None,
                }),
                8 <= iz0 <= 0x10_0000 && 8 <= iz1 <= 0x10_0000 && 8 <= iz2 <= 0x10_0000,
                0 <= illu0 <= 0x10_0000 && 0 <= illu1 <= 0x10_0000 && 0 <= illu2 <= 0x10_0000,
                -UNIT <= n0.0 <= UNIT && -UNIT <= n0.1 <= UNIT && -UNIT <= n0.2 <= UNIT,
                -UNIT <= n1.0 <= UNIT && -UNIT <= n1.1 <= UNIT && -UNIT <= n1.2 <= UNIT,
                -UNIT <= n2.0 <= UNIT && -UNIT <= n2.1 <= UNIT && -UNIT <= n2.2 <= UNIT,
                fits(sp0.x as int) && fits(sp1.x as int) && fits(sp2.x as int),
                vec3_small(*camera_pos),
                light == Light::Directional(li, light_direction),
                0 <= li <= 4 * UNIT,
                -4 * UNIT <= light_direction.0 <= 4 * UNIT,
                -4 * UNIT <= light_direction.1 <= 4 * UNIT,
                -4 * UNIT <= light_direction.2 <= 4 * UNIT,
                (match texture {
                    Some(t) => t.wf(),
                    None => true,
                }),
            decreases sp2.y + 1 - y,
        {
            let xl = x_left.interpolate(y);
            let xr = x_right.interpolate(y);
            if xl <= xr {
                let zscan = crate::lerp::Lerp::new(
                    xl, z_left.interpolate(y), xr, z_right.interpolate(y),
                );
                let iscan = crate::lerp::Lerp::new(
                    xl, i_left.interpolate(y), xr, i_right.interpolate(y),
                );
                let nxscan = crate::lerp::Lerp::new(
                    xl, nx_left.interpolate(y), xr, nx_right.interpolate(y),
                );
                let nyscan = crate::lerp::Lerp::new(
                    xl, ny_left.interpolate(y), xr, ny_right.interpolate(y),
                );
                let nzscan = crate::lerp::Lerp::new(
                    xl, nz_left.interpolate(y), xr, nz_right.interpolate(y),
                );
                let uvscan = match &uvz {
                    Some((ul, ur, vl, vr, _u0, _u1, _u2, _w0, _w1, _w2)) => Some((
                        crate::lerp::Lerp::new(xl, ul.interpolate(y), xr, ur.interpolate(y)),
                        crate::lerp::Lerp::new(xl, vl.interpolate(y), xr, vr.interpolate(y)),
                    )),
                    None => None,
                };

                self.fill_scanline(
                    canvas, y, zscan, iscan, nxscan, nyscan, nzscan, uvscan,
                    color, texture, camera_pos, &light,
                );
            }
            y = y + 1;
        }
        proof {
            assert(v0 == vtx(*triangle, i0 as int));
            assert(v1 == vtx(*triangle, i1 as int));
            assert(v2 == vtx(*triangle, i2 as int));
            assert(n0 == nrm(*triangle, i0 as int, face_unit_normal(*triangle)));
            assert(n1 == nrm(*triangle, i1 as int, face_unit_normal(*triangle)));
            assert(n2 == nrm(*triangle, i2 as int, face_unit_normal(*triangle)));
        }
    }

    /// Fill one scanline: for every column from the left edge to the
    /// right edge inclusive, sample depth, texture and light along the
    /// row's interpolators and write the fragment through the depth
    /// test, exactly as `scan_row` states.
    #[verifier::loop_isolation(false)]
    #[verifier::spinoff_prover]
    #[verifier::rlimit(100)]
    fn fill_scanline<C: Canvas>(
        &mut self,
        canvas: &mut C,
        y: i64,
        zscan: crate::lerp::Lerp,
        iscan: crate::lerp::Lerp,
        nxscan: crate::lerp::Lerp,
        nyscan: crate::lerp::Lerp,
        nzscan: crate::lerp::Lerp,
        uvscan: Option<(crate::lerp::Lerp, crate::lerp::Lerp)>,
        color: Color,
        texture: Option<&Texture>,
        camera_pos: &Vec3,
        light: &Light,
    )
        requires
            old(self).wf(),
            old(canvas).inv(),
            old(canvas).width_spec() == old(self).cw,
            old(canvas).height_spec() == old(self).ch,
            fits(y as int),
            vec3_small(*camera_pos),
            zscan.wf() && iscan.wf() && nxscan.wf() && nyscan.wf() && nzscan.wf(),
            iscan.i0 == zscan.i0 && iscan.i1 == zscan.i1,
            nxscan.i0 == zscan.i0 && nxscan.i1 == zscan.i1,
            nyscan.i0 == zscan.i0 && nyscan.i1 == zscan.i1,
            nzscan.i0 == zscan.i0 && nzscan.i1 == zscan.i1,
            8 <= zscan.d0 <= 0x10_0000 && 8 <= zscan.d1 <= 0x10_0000,
            0 <= iscan.d0 <= 0x10_0000 && 0 <= iscan.d1 <= 0x10_0000,
            -UNIT <= nxscan.d0 <= UNIT && -UNIT <= nxscan.d1 <= UNIT,
            -UNIT <= nyscan.d0 <= UNIT && -UNIT <= nyscan.d1 <= UNIT,
            -UNIT <= nzscan.d0 <= UNIT && -UNIT <= nzscan.d1 <= UNIT,
            (match uvscan {
                Some(us) => us.0.wf() && us.1.wf()
                    && us.0.i0 == zscan.i0 && us.0.i1 == zscan.i1
                    && us.1.i0 == zscan.i0 && us.1.i1 == zscan.i1
                    && 0 <= us.0.d0 <= 0x10_0000 && 0 <= us.0.d1 <= 0x10_0000
                    && 0 <= us.1.d0 <= 0x10_0000 && 0 <= us.1.d1 <= 0x10_0000,
                None => true,
            }),
            (match *light {
                Light::Directional(l, dd) => 0 <= l <= 4 * UNIT
                    && -4 * UNIT <= dd.0 <= 4 * UNIT
                    && -4 * UNIT <= dd.1 <= 4 * UNIT
                    && -4 * UNIT <= dd.2 <= 4 * UNIT,
                _ => false,
            }),
            (match texture {
                Some(t) => t.wf(),
                None => true,
            }),
        ensures
            final(self).wf(),
            final(self).same_setup(old(self)),
            final(canvas).inv(),
            final(canvas).width_spec() == old(canvas).width_spec(),
            final(canvas).height_spec() == old(canvas).height_spec(),
            (match *light {
                Light::Directional(l, dd) =>
                    (final(self).depth_buffer@, final(canvas).pix()) == scan_row(
                        old(self).depth_buffer@, old(canvas).pix(),
                        old(self).cw as int, old(self).ch as int, y as int,
                        zscan, iscan, nxscan, nyscan, nzscan, uvscan, color, texture,
                        *camera_pos, l, dd, old(self).shading is Phong,
                        old(self).d as int, old(self).cw as int, old(self).ch as int,
                        old(self).vw as int, old(self).vh as int, zscan.i1 as int,
                    ),
                _ => true,
            }),
    {
        proof {
            old(canvas).inv_facts();
        }
        let xl = zscan.i0;
        let xr = zscan.i1;
        let ghost l = light->Directional_0;
        let ghost dd = light->Directional_1;
        let ghost phong = self.shading is Phong;
        let mut x: i64 = xl;
        while x <= xr
            invariant
                xl <= x <= xr + 1,
                self.wf(),
                self.same_setup(old(self)),
                canvas.inv(),
                canvas.width_spec() == old(canvas).width_spec(),
                canvas.height_spec() == old(canvas).height_spec(),
                (self.depth_buffer@, canvas.pix()) == scan_row(
                    old(self).depth_buffer@, old(canvas).pix(),
                    old(self).cw as int, old(self).ch as int, y as int,
                    zscan, iscan, nxscan, nyscan, nzscan, uvscan, color, texture,
                    *camera_pos, l, dd, phong,
                    old(self).d as int, old(self).cw as int, old(self).ch as int,
                    old(self).vw as int, old(self).vh as int, x - 1,
                ),
            decreases xr + 1 - x,
        {
            let inverse_z = zscan.interpolate(x);
            let frag_color = match (&uvscan, texture) {
                (Some((us, vs)), Some(tex)) => {
                    let uu = div_i64(mul_i64(us.interpolate(x), UNIT), inverse_z);
                    let vv = div_i64(mul_i64(vs.interpolate(x), UNIT), inverse_z);
                    tex.texel(uu, vv)
                }
                _ => color,
            };
            proof {
                assert(frag_color == fragment_base_color(
                    uvscan, texture, color, inverse_z as int, x as int,
                ));
            }
            let intensity: i64 = match self.shading {
                Shading::Gouraud => iscan.interpolate(x),
                Shading::Phong => {
                    proof {
                        lemma_depth_from_inv(inverse_z as int);
                    }
                    let zz = div_i64(0x1_0000_0000, inverse_z);
                    match self.unproject_point(x, y, zz) {
                        Some(pt) => {
                            if pt.0 >= -0x2000_0000 && pt.0 <= 0x2000_0000
                                && pt.1 >= -0x2000_0000 && pt.1 <= 0x2000_0000 {
                                let nn = Vec3(
                                    nxscan.interpolate(x),
                                    nyscan.interpolate(x),
                                    nzscan.interpolate(x),
                                );
                                Self::compute_illumination(pt, camera_pos, nn, light)
                                    .unwrap()
                            } else {
                                iscan.interpolate(x)
                            }
                        }
                        None => iscan.interpolate(x),
                    }
                }
            };
            proof {
                assert(intensity as int == fragment_intensity(
                    iscan, nxscan, nyscan, nzscan, *camera_pos, l, dd, phong,
                    self.d as int, self.cw as int, self.ch as int,
                    self.vw as int, self.vh as int, inverse_z as int, x as int, y as int,
                ));
            }
            let cv = frag_color.to_vec3_scaled();
            let lit = Color::from_vec3_scaled(Vec3(
                div_i64(mul_i64(cv.0, intensity), UNIT),
                div_i64(mul_i64(cv.1, intensity), UNIT),
                div_i64(mul_i64(cv.2, intensity), UNIT),
            ));
            proof {
                assert(lit == lit_color(frag_color, intensity as int));
            }
            self.put_pixel(canvas, x, y, inverse_z, lit);
            x = x + 1;
        }
    }

    /// The scalar light intensity at a surface point.  Only directional
    /// lights are computed; the ambient and point variants are declared
    /// for scenes but rejected here, exactly when one is passed.  The
    /// view vector of the specular term is the camera-to-point direction
    /// negated.
    pub fn compute_illumination(
        center: Vec3,
        camera_pos: &Vec3,
        normal: Vec3,
        light: &Light,
    ) -> (r: Result<i64, UnsupportedLight>)
        requires
            vec3_small(center),
            vec3_small(*camera_pos),
            -UNIT <= normal.0 <= UNIT,
            -UNIT <= normal.1 <= UNIT,
            -UNIT <= normal.2 <= UNIT,
            (match *light {
                Light::Directional(l, d) => 0 <= l <= 4 * UNIT
                    && -4 * UNIT <= d.0 <= 4 * UNIT
                    && -4 * UNIT <= d.1 <= 4 * UNIT
                    && -4 * UNIT <= d.2 <= 4 * UNIT,
                _ => true,
            }),
        ensures
            r is Err <==> !(*light is Directional),
            (match *light {
                Light::Directional(l, d) => r matches Ok(v)
                    && v == illum_directional(center, *camera_pos, normal, l as int, d)
                    && 0 <= v <= 0x10_0000,
                _ => true,
            }),
    {
        match *light {
            Light::Ambient(_) => Err(UnsupportedLight),
            Light::Point(_, _) => Err(UnsupportedLight),
            Light::Directional(intensity, dir) => {
                // Diffuse component
                let neg_dir = dir.scale(-1);
                let n2a = neg_dir.dot(&neg_dir);
                let n2b = normal.dot(&normal);
                let cos_alpha: i64 = if n2a > 0 && n2b > 0 {
                    let a = neg_dir.angle(&normal);
                    let c = if a < 0 { 0 } else if a > UNIT as i128 { UNIT as i128 } else { a };
                    c as i64
                } else {
                    0
                };
                proof {
                    assert(0 <= cos_alpha as int * intensity as int <= 0x4_0000_0000)
                        by (nonlinear_arith)
                        requires
                            0 <= cos_alpha <= 0x1_0000i64,
                            0 <= intensity <= 0x4_0000i64;
                    lemma_div_pos_is_pos(cos_alpha as int * intensity as int, UNIT as int);
                    vstd::arithmetic::div_mod::lemma_div_is_ordered(
                        cos_alpha as int * intensity as int, 0x4_0000_0000, UNIT as int,
                    );
                    lemma_div_multiples_vanish(0x4_0000, 0x1_0000);
                }
                let mut illumination: i64 =
                    AMBIENT_LIGHT + div_i64(mul_i64(cos_alpha, intensity), UNIT);

                // Specular component
                let dot_nd = normal.dot(&dir);
                proof {
                    assert(-0x10_0000_0000 <= dot_nd as int <= 0x10_0000_0000)
                        by (nonlinear_arith)
                        requires
                            -0x1_0000i64 <= normal.0 <= 0x1_0000i64,
                            -0x1_0000i64 <= normal.1 <= 0x1_0000i64,
                            -0x1_0000i64 <= normal.2 <= 0x1_0000i64,
                            -0x4_0000i64 <= dir.0 <= 0x4_0000i64,
                            -0x4_0000i64 <= dir.1 <= 0x4_0000i64,
                            -0x4_0000i64 <= dir.2 <= 0x4_0000i64,
                            dot_nd == normal.0 * dir.0 + normal.1 * dir.1 + normal.2 * dir.2;
                }
                let gn = Ghost(0x1_0000int);
                let gd = Ghost(0x10_0000_0000int);
                let q0 = div_i128(
                    2 * mul_bounded_i128(normal.0 as i128, dot_nd as i128, gn, gd),
                    0x1_0000_0000,
                );
                let q1 = div_i128(
                    2 * mul_bounded_i128(normal.1 as i128, dot_nd as i128, gn, gd),
                    0x1_0000_0000,
                );
                let q2 = div_i128(
                    2 * mul_bounded_i128(normal.2 as i128, dot_nd as i128, gn, gd),
                    0x1_0000_0000,
                );
                proof {
                    lemma_reflect_quotient_bound(
                        2 * (normal.0 as int * dot_nd as int));
                    lemma_reflect_quotient_bound(
                        2 * (normal.1 as int * dot_nd as int));
                    lemma_reflect_quotient_bound(
                        2 * (normal.2 as int * dot_nd as int));
                }
                let reflected = Vec3(
                    q0 as i64 - dir.0,
                    q1 as i64 - dir.1,
                    q2 as i64 - dir.2,
                );
                let view = camera_pos.sub(&center);
                let n2r = reflected.dot(&reflected);
                let n2v = view.dot(&view);
                let cos_beta: i64 = if n2r > 0 && n2v > 0 {
                    let b = reflected.angle(&view);
                    let c = if b < 0 { 0 } else if b > UNIT as i128 { UNIT as i128 } else { b };
                    c as i64
                } else {
                    0
                };
                proof {
                    assert(neg_dir == (Vec3 {
                        0: (-(dir.0 as int)) as i64,
                        1: (-(dir.1 as int)) as i64,
                        2: (-(dir.2 as int)) as i64,
                    }));
                    assert(view == (Vec3 {
                        0: (camera_pos.0 - center.0) as i64,
                        1: (camera_pos.1 - center.1) as i64,
                        2: (camera_pos.2 - center.2) as i64,
                    }));
                    assert(reflected == reflect_about(normal, dir));
                    assert(cos_alpha == cos_clamped(neg_dir, normal));
                    assert(cos_beta == cos_clamped(reflected, view));
                }
                if cos_beta > 0 {
                    let p = crate::fixed::pow_unit(cos_beta, SPECULAR_EXPONENT);
                    proof {
                        assert(0 <= p as int * intensity as int <= 0x4_0000_0000)
                            by (nonlinear_arith)
                            requires
                                0 <= p <= 0x1_0000i64,
                                0 <= intensity <= 0x4_0000i64;
                        lemma_div_pos_is_pos(p as int * intensity as int, UNIT as int);
                        vstd::arithmetic::div_mod::lemma_div_is_ordered(
                            p as int * intensity as int, 0x4_0000_0000, UNIT as int,
                        );
                        lemma_div_multiples_vanish(0x4_0000, 0x1_0000);
                    }
                    illumination = illumination + div_i64(mul_i64(p, intensity), UNIT);
                }
                Ok(illumination)
            }
        }
    }

    /// Draw a flat-colored line, stepping the dominant axis one pixel at
    /// a time.  Lines bypass the depth buffer and write straight to the
    /// canvas.
    pub fn draw_line<C: Canvas>(canvas: &mut C, p0: Point, p1: Point, color: Color)
        requires
            old(canvas).inv(),
            p0.bounded(),
            p1.bounded(),
        ensures
            final(canvas).inv(),
            final(canvas).width_spec() == old(canvas).width_spec(),
            final(canvas).height_spec() == old(canvas).height_spec(),
            final(canvas).pix() == line_pixels(
                old(canvas).pix(), old(canvas).width_spec(), old(canvas).height_spec(),
                p0, p1, color,
            ),
    {
        Self::draw_shaded_line(canvas, (p0, color), (p1, color));
    }

    /// Draw a line whose color fades from `c0` at one end to `c1` at the
    /// other.
    pub fn draw_shaded_line<C: Canvas>(
        canvas: &mut C,
        pc0: (Point, Color),
        pc1: (Point, Color),
    )
        requires
            old(canvas).inv(),
            pc0.0.bounded(),
            pc1.0.bounded(),
        ensures
            final(canvas).inv(),
            final(canvas).width_spec() == old(canvas).width_spec(),
            final(canvas).height_spec() == old(canvas).height_spec(),
            final(canvas).pix() == shaded_line_pixels(
                old(canvas).pix(), old(canvas).width_spec(), old(canvas).height_spec(),
                pc0.0, pc0.1, pc1.0, pc1.1,
            ),
    {
        let (mut p0, mut c0) = pc0;
        let (mut p1, mut c1) = pc1;
        let dx = p1.x - p0.x;
        let dy = p1.y - p0.y;
        let adx = if dx < 0 { -dx } else { dx };
        let ady = if dy < 0 { -dy } else { dy };

        if adx > ady {
            if dx < 0 {
                let tp = p0; p0 = p1; p1 = tp;
                let tc = c0; c0 = c1; c1 = tc;
            }
            let ys = Self::interpolate(p0.x, p0.y, p1.x, p1.y);
            let colors = Self::interpolate_color(p0.x, c0, p1.x, c1);
            let mut x: i64 = p0.x;
            while x <= p1.x
                invariant
                    p0.x <= x <= p1.x + 1,
                    p0.x <= p1.x,
                    p0.bounded(),
                    p1.bounded(),
                    ys@.len() == table_len(p0.x as int, p1.x as int),
                    colors@.len() == table_len(p0.x as int, p1.x as int),
                    forall|k: int| 0 <= k < ys@.len()
                        ==> ys@[k] == crate::lerp::lerp_at(p0.x as int, p0.y as int,
                            p1.x as int, p1.y as int, p0.x + k),
                    forall|k: int| 0 <= k < ys@.len() ==> fits(#[trigger] ys@[k] as int),
                    forall|k: int| 0 <= k < colors@.len()
                        ==> colors@[k] == color_lerp(c0, c1, p0.x as int, p1.x as int, p0.x + k),
                    canvas.inv(),
                    canvas.width_spec() == old(canvas).width_spec(),
                    canvas.height_spec() == old(canvas).height_spec(),
                    canvas.pix() == line_axis_prefix(
                        old(canvas).pix(), old(canvas).width_spec(), old(canvas).height_spec(),
                        true, p0.x as int, p0.y as int, p1.x as int, p1.y as int, c0, c1,
                        x - 1,
                    ),
                decreases p1.x + 1 - x,
            {
                let idx: usize = (x - p0.x) as usize;
                canvas.put_pixel(x, ys[idx], colors[idx]);
                x = x + 1;
            }
        } else {
            if dy < 0 {
                let tp = p0; p0 = p1; p1 = tp;
                let tc = c0; c0 = c1; c1 = tc;
            }
            let xs = Self::interpolate(p0.y, p0.x, p1.y, p1.x);
            let colors = Self::interpolate_color(p0.y, c0, p1.y, c1);
            let mut y: i64 = p0.y;
            while y <= p1.y
                invariant
                    p0.y <= y <= p1.y + 1,
                    p0.y <= p1.y,
                    p0.bounded(),
                    p1.bounded(),
                    xs@.len() == table_len(p0.y as int, p1.y as int),
                    colors@.len() == table_len(p0.y as int, p1.y as int),
                    forall|k: int| 0 <= k < xs@.len()
                        ==> xs@[k] == crate::lerp::lerp_at(p0.y as int, p0.x as int,
                            p1.y as int, p1.x as int, p0.y + k),
                    forall|k: int| 0 <= k < xs@.len() ==> fits(#[trigger] xs@[k] as int),
                    forall|k: int| 0 <= k < colors@.len()
                        ==> colors@[k] == color_lerp(c0, c1, p0.y as int, p1.y as int, p0.y + k),
                    canvas.inv(),
                    canvas.width_spec() == old(canvas).width_spec(),
                    canvas.height_spec() == old(canvas).height_spec(),
                    canvas.pix() == line_axis_prefix(
                        old(canvas).pix(), old(canvas).width_spec(), old(canvas).height_spec(),
                        false, p0.y as int, p0.x as int, p1.y as int, p1.x as int, c0, c1,
                        y - 1,
                    ),
                decreases p1.y + 1 - y,
            {
                let idx: usize = (y - p0.y) as usize;
                canvas.put_pixel(xs[idx], y, colors[idx]);
                y = y + 1;
            }
        }
    }

    /// Fill a triangle whose corners carry colors: rows from top to
    /// bottom, each row spanning left edge to right edge in the row's
    /// left-side color, edges taken from the enumerated tables.
    #[verifier::loop_isolation(false)]
    #[verifier::spinoff_prover]
    #[verifier::rlimit(100)]
    pub fn draw_shaded_triangle<C: Canvas>(
        canvas: &mut C,
        pc0: (Point, Color),
        pc1: (Point, Color),
        pc2: (Point, Color),
    )
        requires
            old(canvas).inv(),
            pc0.0.bounded(),
            pc1.0.bounded(),
            pc2.0.bounded(),
        ensures
            final(canvas).inv(),
            final(canvas).width_spec() == old(canvas).width_spec(),
            final(canvas).height_spec() == old(canvas).height_spec(),
            ({
                let (s0, e0, s1, e1, s2, e2) = sort_shaded(
                    pc0.0, pc0.1, pc1.0, pc1.1, pc2.0, pc2.1,
                );
                let ll = long_edge_is_left(
                    s0.y as int, s0.x as int, s1.y as int, s1.x as int, s2.y as int, s2.x as int,
                );
                final(canvas).pix() == shaded_tri_prefix(
                    old(canvas).pix(), old(canvas).width_spec(), old(canvas).height_spec(),
                    s0.y as int, s0.x as int, e0, s1.y as int, s1.x as int, e1,
                    s2.y as int, s2.x as int, e2, ll, s2.y as int,
                )
            }),
    {
        let (mut sp0, mut sc0) = pc0;
        let (mut sp1, mut sc1) = pc1;
        let (mut sp2, mut sc2) = pc2;
        // Sort so sp0.y <= sp1.y <= sp2.y.
        if sp1.y < sp0.y {
            let tp = sp0; sp0 = sp1; sp1 = tp;
            let tc = sc0; sc0 = sc1; sc1 = tc;
        }
        if sp2.y < sp0.y {
            let tp = sp0; sp0 = sp2; sp2 = tp;
            let tc = sc0; sc0 = sc2; sc2 = tc;
        }
        if sp2.y < sp1.y {
            let tp = sp1; sp1 = sp2; sp2 = tp;
            let tc = sc1; sc1 = sc2; sc2 = tc;
        }
        proof {
            assert((sp0, sc0, sp1, sc1, sp2, sc2) == sort_shaded(
                pc0.0, pc0.1, pc1.0, pc1.1, pc2.0, pc2.1,
            ));
        }
        let (y0, y1, y2) = (sp0.y, sp1.y, sp2.y);

        // Edge tables for x and the color tables along the edges.
        let xt = Self::triangle_interpolate(y0, y1, y2, sp0.x, sp1.x, sp2.x);
        let x02 = xt.0;
        let x012 = xt.1;
        let h02 = Self::interpolate_color(y0, sc0, y2, sc2);
        let h01 = Self::interpolate_color(y0, sc0, y1, sc1);
        let h12 = Self::interpolate_color(y1, sc1, y2, sc2);
        let mut h012: Vec<Color> = Vec::new();
        let take = h01.len() - 1;
        let mut k: usize = 0;
        while k < take
            invariant
                k <= take,
                h012@.len() == k,
                forall|j: int| 0 <= j < k ==> h012@[j] == h01@[j],
            decreases take - k,
        {
            let c = h01[k];
            h012.push(c);
            k = k + 1;
        }
        let mut k2: usize = 0;
        let n2 = h12.len();
        while k2 < n2
            invariant
                k2 <= n2,
                h012@.len() == take + k2,
                forall|j: int| 0 <= j < take ==> h012@[j] == h01@[j],
                forall|j: int| take <= j < h012@.len() ==> h012@[j] == h12@[j - take],
            decreases n2 - k2,
        {
            let c = h12[k2];
            h012.push(c);
            k2 = k2 + 1;
        }
        proof {
            assert forall|k3: int| 0 <= k3 < h012@.len() implies h012@[k3] == (if y0 + k3 < y1 {
                color_lerp(sc0, sc1, y0 as int, y1 as int, y0 + k3)
            } else {
                color_lerp(sc1, sc2, y1 as int, y2 as int, y0 + k3)
            }) by {
                if k3 >= take {
                    assert(h012@[k3] == h12@[k3 - take]);
                    if y0 != y1 {
                        assert(y0 + k3 >= y1);
                    }
                }
            };
        }

        // Decide which side is left with one probe at the middle row.
        let m: usize = x02.len() / 2;
        let left_long = x02[m] < x012[m];
        proof {
            assert(left_long == long_edge_is_left(
                y0 as int, sp0.x as int, y1 as int, sp1.x as int, y2 as int, sp2.x as int,
            ));
        }

        let ghost w = old(canvas).width_spec();
        let ghost h = old(canvas).height_spec();
        let ghost ll = left_long;

        // Row loop.
        let mut y: i64 = y0;
        while y <= y2
            invariant
                y0 <= y <= y2 + 1,
                canvas.inv(),
                canvas.width_spec() == w,
                canvas.height_spec() == h,
                canvas.pix() == shaded_tri_prefix(
                    old(canvas).pix(), w, h,
                    y0 as int, sp0.x as int, sc0, y1 as int, sp1.x as int, sc1,
                    y2 as int, sp2.x as int, sc2, ll, y - 1,
                ),
            decreases y2 + 1 - y,
        {
            let idx: usize = (y - y0) as usize;
            let xlv = if left_long { x02[idx] } else { x012[idx] };
            let xrv = if left_long { x012[idx] } else { x02[idx] };
            let cc = if left_long { h02[idx] } else { h012[idx] };
            let ghost rowpix = canvas.pix();
            if xlv <= xrv {
                let mut x: i64 = xlv;
                while x <= xrv
                    invariant
                        xlv <= x <= xrv + 1,
                        canvas.inv(),
                        canvas.width_spec() == w,
                        canvas.height_spec() == h,
                        canvas.pix() == flat_row_prefix(
                            rowpix, w, h, y as int, xlv as int, cc, x - 1,
                        ),
                    decreases xrv + 1 - x,
                {
                    canvas.put_pixel(x, y, cc);
                    x = x + 1;
                }
            }
            y = y + 1;
        }
    }

    /// Draw the three edges of a triangle.
    pub fn draw_wireframe_triangle<C: Canvas>(
        canvas: &mut C,
        p0: Point,
        p1: Point,
        p2: Point,
        color: Color,
    )
        requires
            old(canvas).inv(),
            p0.bounded(),
            p1.bounded(),
            p2.bounded(),
        ensures
            final(canvas).inv(),
            final(canvas).width_spec() == old(canvas).width_spec(),
            final(canvas).height_spec() == old(canvas).height_spec(),
            ({
                let w = old(canvas).width_spec();
                let h = old(canvas).height_spec();
                final(canvas).pix() == line_pixels(
                    line_pixels(
                        line_pixels(old(canvas).pix(), w, h, p0, p1, color),
                        w, h, p1, p2, color,
                    ),
                    w, h, p2, p0, color,
                )
            }),
    {
        Self::draw_line(canvas, p0, p1, color);
        Self::draw_line(canvas, p1, p2, color);
        Self::draw_line(canvas, p2, p0, color)
    }
}

/// A triangle moved by a placement matrix, its normals by the
/// view-projection matrix, exactly as `Triangle::transform` computes it.
pub open spec fn transform_spec(t: Triangle, m: Mat4, vp: Mat4) -> Triangle {
    Triangle {
        p0: apply_point(m, t.p0),
        p1: apply_point(m, t.p1),
        p2: apply_point(m, t.p2),
        color: t.color,
        uvs: t.uvs,
        normals: match t.normals {
            Some(ns) => Some((
                apply_point(vp, ns.0), apply_point(vp, ns.1), apply_point(vp, ns.2),
            )),
            None => None,
        },
    }
}

/// A model-space point, taken to clip space by `m`, divides out to a
/// screen point inside the drawable range.
pub open spec fn clip_ok(m: Mat4, v: Vec3) -> bool {
    let hv = Vec4 { 0: v.0, 1: v.1, 2: v.2, 3: UNIT as i64 };
    let wq = crate::math::m4_apply_entry(m, hv, 3);
    &&& wq > 0
    &&& fits(crate::math::m4_apply_entry(m, hv, 0) / wq)
    &&& fits(crate::math::m4_apply_entry(m, hv, 1) / wq)
}

/// The screen point a model-space point projects to through a clip
/// matrix: x and y divided by w, rounded down.
pub open spec fn clip_point(m: Mat4, v: Vec3) -> Point {
    let hv = Vec4 { 0: v.0, 1: v.1, 2: v.2, 3: UNIT as i64 };
    let wq = crate::math::m4_apply_entry(m, hv, 3);
    Point {
        x: (crate::math::m4_apply_entry(m, hv, 0) / wq) as i64,
        y: (crate::math::m4_apply_entry(m, hv, 1) / wq) as i64,
    }
}

/// What `render_model` does for one triangle: place it with the view
/// and clip matrices, skip it unless it stays drawable and all three
/// corners project, and otherwise draw it at its projected corners.
pub open spec fn render_tri_step(
    depth: Seq<i64>, pix: Seq<Color>, w: int, h: int,
    t: Triangle, vt: Mat4, ft: Mat4, cam: Vec3, dir: Vec3, li: i64, phong: bool,
    texture: Option<&Texture>, d: int, cw: int, ch: int, vw: int, vh: int,
) -> (Seq<i64>, Seq<Color>) {
    let tv = transform_spec(t, vt, ft);
    if view_triangle_ok(tv) && clip_ok(ft, t.p0) && clip_ok(ft, t.p1) && clip_ok(ft, t.p2) {
        tri_draw(
            depth, pix, w, h, tv, Vec3 { 0: 0i64, 1: 0i64, 2: 0i64 }, cam, dir, li, phong,
            texture, clip_point(ft, t.p0), clip_point(ft, t.p1), clip_point(ft, t.p2),
            d, cw, ch, vw, vh,
        )
    } else {
        (depth, pix)
    }
}

/// The first `n` triangles of a model rendered in order.
pub open spec fn render_prefix(
    depth: Seq<i64>, pix: Seq<Color>, w: int, h: int, tris: Seq<Triangle>,
    vt: Mat4, ft: Mat4, cam: Vec3, dir: Vec3, li: i64, phong: bool,
    texture: Option<&Texture>, d: int, cw: int, ch: int, vw: int, vh: int, n: int,
) -> (Seq<i64>, Seq<Color>)
    decreases n,
{
    if n <= 0 {
        (depth, pix)
    } else {
        let prev = render_prefix(
            depth, pix, w, h, tris, vt, ft, cam, dir, li, phong, texture,
            d, cw, ch, vw, vh, n - 1,
        );
        render_tri_step(
            prev.0, prev.1, w, h, tris[n - 1], vt, ft, cam, dir, li, phong, texture,
            d, cw, ch, vw, vh,
        )
    }
}

/// What `draw_cube` does for one view-space triangle: skip it unless
/// all three corners project onto the drawable range, else draw it at
/// the projected corners with the camera reference, light direction and
/// camera position all at the origin.
pub open spec fn cube_tri_step(
    depth: Seq<i64>, pix: Seq<Color>, w: int, h: int, t: Triangle,
    li: i64, phong: bool, d: int, cw: int, ch: int, vw: int, vh: int,
) -> (Seq<i64>, Seq<Color>) {
    let o = Vec3 { 0: 0i64, 1: 0i64, 2: 0i64 };
    if proj_point_ok(t.p0, d, cw, ch, vw, vh) && proj_point_ok(t.p1, d, cw, ch, vw, vh)
        && proj_point_ok(t.p2, d, cw, ch, vw, vh) {
        tri_draw(
            depth, pix, w, h, t, o, o, o, li, phong, Option::<&Texture>::None,
            proj_point(t.p0, d, cw, ch, vw, vh),
            proj_point(t.p1, d, cw, ch, vw, vh),
            proj_point(t.p2, d, cw, ch, vw, vh),
            d, cw, ch, vw, vh,
        )
    } else {
        (depth, pix)
    }
}

/// The first `n` triangles of a flat-colored view-space model drawn in
/// order.
pub open spec fn cube_prefix(
    depth: Seq<i64>, pix: Seq<Color>, w: int, h: int, tris: Seq<Triangle>,
    li: i64, phong: bool, d: int, cw: int, ch: int, vw: int, vh: int, n: int,
) -> (Seq<i64>, Seq<Color>)
    decreases n,
{
    if n <= 0 {
        (depth, pix)
    } else {
        let prev = cube_prefix(depth, pix, w, h, tris, li, phong, d, cw, ch, vw, vh, n - 1);
        cube_tri_step(prev.0, prev.1, w, h, tris[n - 1], li, phong, d, cw, ch, vw, vh)
    }
}

/// A view-space point projects onto the drawable screen range.
pub open spec fn proj_point_ok(v: Vec3, d: int, cw: int, ch: int, vw: int, vh: int) -> bool {
    &&& v.2 > 0
    &&& fits(Rasterizer::projected(v.0 as int, v.2 as int, d, cw, vw))
    &&& fits(Rasterizer::projected(v.1 as int, v.2 as int, d, ch, vh))
}

/// The screen point a view-space point projects to.
pub open spec fn proj_point(v: Vec3, d: int, cw: int, ch: int, vw: int, vh: int) -> Point {
    Point {
        x: Rasterizer::projected(v.0 as int, v.2 as int, d, cw, vw) as i64,
        y: Rasterizer::projected(v.1 as int, v.2 as int, d, ch, vh) as i64,
    }
}

/// Applying a placement matrix keeps the point inside the coordinate
/// range.
pub open spec fn apply_in_range(m: Mat4, v: Vec3) -> bool {
    let hv = Vec4 { 0: v.0, 1: v.1, 2: v.2, 3: UNIT as i64 };
    &&& fits(crate::math::m4_apply_entry(m, hv, 0))
    &&& fits(crate::math::m4_apply_entry(m, hv, 1))
    &&& fits(crate::math::m4_apply_entry(m, hv, 2))
}

/// The point a placement matrix takes a point to.
pub open spec fn apply_point(m: Mat4, v: Vec3) -> Vec3 {
    let hv = Vec4 { 0: v.0, 1: v.1, 2: v.2, 3: UNIT as i64 };
    Vec3 {
        0: crate::math::m4_apply_entry(m, hv, 0) as i64,
        1: crate::math::m4_apply_entry(m, hv, 1) as i64,
        2: crate::math::m4_apply_entry(m, hv, 2) as i64,
    }
}

/// All eight corners of a box project onto the drawable screen range.
pub open spec fn all_proj_ok(
    f: Seq<Vec3>, b: Seq<Vec3>, d: int, cw: int, ch: int, vw: int, vh: int,
) -> bool {
    &&& proj_point_ok(f[0], d, cw, ch, vw, vh)
    &&& proj_point_ok(f[1], d, cw, ch, vw, vh)
    &&& proj_point_ok(f[2], d, cw, ch, vw, vh)
    &&& proj_point_ok(f[3], d, cw, ch, vw, vh)
    &&& proj_point_ok(b[0], d, cw, ch, vw, vh)
    &&& proj_point_ok(b[1], d, cw, ch, vw, vh)
    &&& proj_point_ok(b[2], d, cw, ch, vw, vh)
    &&& proj_point_ok(b[3], d, cw, ch, vw, vh)
}

/// A placement keeps all eight corners of a box inside the coordinate
/// range.
pub open spec fn all_apply_ok(m: Mat4, f: Seq<Vec3>, b: Seq<Vec3>) -> bool {
    &&& apply_in_range(m, f[0])
    &&& apply_in_range(m, f[1])
    &&& apply_in_range(m, f[2])
    &&& apply_in_range(m, f[3])
    &&& apply_in_range(m, b[0])
    &&& apply_in_range(m, b[1])
    &&& apply_in_range(m, b[2])
    &&& apply_in_range(m, b[3])
}

/// The three edges of a triangle outline, drawn in order.
pub open spec fn wire_tri_pixels(
    pix: Seq<Color>, w: int, h: int, a: Point, b: Point, c: Point, col: Color,
) -> Seq<Color> {
    line_pixels(line_pixels(line_pixels(pix, w, h, a, b, col), w, h, b, c, col), w, h, c, a, col)
}

/// The twelve edges of a box outline: the back square in red, the
/// front-to-back edges in green, the front square in blue.
pub open spec fn wire_cube_pixels(
    pix: Seq<Color>, w: int, h: int,
    f0: Point, f1: Point, f2: Point, f3: Point,
    b0: Point, b1: Point, b2: Point, b3: Point,
) -> Seq<Color> {
    let red = Color { 0: 255u8, 1: 0u8, 2: 0u8 };
    let green = Color { 0: 0u8, 1: 255u8, 2: 0u8 };
    let blue = Color { 0: 0u8, 1: 0u8, 2: 255u8 };
    let s1 = line_pixels(pix, w, h, b0, b1, red);
    let s2 = line_pixels(s1, w, h, b1, b2, red);
    let s3 = line_pixels(s2, w, h, b2, b3, red);
    let s4 = line_pixels(s3, w, h, b3, b0, red);
    let s5 = line_pixels(s4, w, h, f0, b0, green);
    let s6 = line_pixels(s5, w, h, f1, b1, green);
    let s7 = line_pixels(s6, w, h, f2, b2, green);
    let s8 = line_pixels(s7, w, h, f3, b3, green);
    let s9 = line_pixels(s8, w, h, f0, f1, blue);
    let s10 = line_pixels(s9, w, h, f1, f2, blue);
    let s11 = line_pixels(s10, w, h, f2, f3, blue);
    line_pixels(s11, w, h, f3, f0, blue)
}

/// The outlines of the first `n` triangles of a model, each in its own
/// color, a triangle drawn only when all three corners project onto the
/// drawable range.
pub open spec fn wire_model_prefix(
    pix: Seq<Color>, w: int, h: int, tris: Seq<Triangle>,
    d: int, cw: int, ch: int, vw: int, vh: int, n: int,
) -> Seq<Color>
    decreases n,
{
    if n <= 0 {
        pix
    } else {
        let prev = wire_model_prefix(pix, w, h, tris, d, cw, ch, vw, vh, n - 1);
        let t = tris[n - 1];
        if proj_point_ok(t.p0, d, cw, ch, vw, vh) && proj_point_ok(t.p1, d, cw, ch, vw, vh)
            && proj_point_ok(t.p2, d, cw, ch, vw, vh) {
            wire_tri_pixels(
                prev, w, h,
                proj_point(t.p0, d, cw, ch, vw, vh),
                proj_point(t.p1, d, cw, ch, vw, vh),
                proj_point(t.p2, d, cw, ch, vw, vh),
                t.color,
            )
        } else {
            prev
        }
    }
}

/// A triangle already in view space that the rasterizer can draw as it
/// stands: inside the coordinate range, in front of the near plane, with
/// unit-ranged normals and texture coordinates.
pub open spec fn view_triangle_ok(t: Triangle) -> bool {
    &&& t.bounded()
    &&& NEAR_PLANE <= t.p0.2
    &&& NEAR_PLANE <= t.p1.2
    &&& NEAR_PLANE <= t.p2.2
    &&& match t.normals {
        Some(ns) => -UNIT <= ns.0.0 <= UNIT && -UNIT <= ns.0.1 <= UNIT
            && -UNIT <= ns.0.2 <= UNIT && -UNIT <= ns.1.0 <= UNIT
            && -UNIT <= ns.1.1 <= UNIT && -UNIT <= ns.1.2 <= UNIT
            && -UNIT <= ns.2.0 <= UNIT && -UNIT <= ns.2.1 <= UNIT
            && -UNIT <= ns.2.2 <= UNIT,
        None => true,
    }
    &&& match t.uvs {
        Some(uvs) => 0 <= uvs.0.0 <= UNIT && 0 <= uvs.0.1 <= UNIT
            && 0 <= uvs.1.0 <= UNIT && 0 <= uvs.1.1 <= UNIT
            && 0 <= uvs.2.0 <= UNIT && 0 <= uvs.2.1 <= UNIT,
        None => true,
    }
}

/// A model-space triangle fit to be placed and drawn; its normals are
/// checked only after the transform, which moves them.
pub open spec fn model_triangle_ok(t: Triangle) -> bool {
    &&& t.bounded()
    &&& match t.uvs {
        Some(uvs) => 0 <= uvs.0.0 <= UNIT && 0 <= uvs.0.1 <= UNIT
            && 0 <= uvs.1.0 <= UNIT && 0 <= uvs.1.1 <= UNIT
            && 0 <= uvs.2.0 <= UNIT && 0 <= uvs.2.1 <= UNIT,
        None => true,
    }
}

/// The vertex of a per-vertex attribute triple with the given index.
fn pick_vec3(t: &(Vec3, Vec3, Vec3), i: u8) -> (r: Vec3)
    requires
        i < 3,
    ensures
        r == if i == 0 { t.0 } else if i == 1 { t.1 } else { t.2 },
{
    if i == 0 {
        t.0
    } else if i == 1 {
        t.1
    } else {
        t.2
    }
}

/// As `pick_vec3`, for texture coordinates.
fn pick_vec2(t: &(Vec2, Vec2, Vec2), i: u8) -> (r: Vec2)
    requires
        i < 3,
    ensures
        r == if i == 0 { t.0 } else if i == 1 { t.1 } else { t.2 },
{
    if i == 0 {
        t.0
    } else if i == 1 {
        t.1
    } else {
        t.2
    }
}

/// Round trip: on inputs the projection maps without rounding, the
/// unprojection recovers the coordinate exactly; elsewhere the recovery
/// is within the tolerance the two floor divisions introduce.
pub proof fn lemma_unproject_project(coord: int, z: int, d: int, cpix: int, vsize: int)
    requires
        z > 0,
        d > 0,
        cpix > 0,
        vsize > 0,
        (coord * d) % z == 0,
        ((coord * d / z) * cpix) % vsize == 0,
    ensures
        Rasterizer::unprojected(
            Rasterizer::projected(coord, z, d, cpix, vsize), z, d, cpix, vsize,
        ) == coord,
{
    let t = coord * d / z;
    let p = coord * d / z * cpix / vsize;
    // the exact divisions cancel against the multiplications step by step
    lemma_div_exact_mul(coord * d, z);
    lemma_div_exact_mul(t * cpix, vsize);
    assert(t * cpix == cpix * t) by (nonlinear_arith);
    lemma_div_multiples_vanish(t, cpix);
    assert(p * vsize / cpix == t);
    assert(coord * d == d * coord) by (nonlinear_arith);
    lemma_div_multiples_vanish(coord, d);
    assert(t * z / d == coord);
}

/// Inverse depth of a point between the near plane and the far end of
/// the coordinate range.
proof fn lemma_inv_depth_bounds(z: int)
    requires
        NEAR_PLANE <= z <= 0x2000_0000,
    ensures
        8 <= 0x1_0000_0000int / z <= 0x10_0000,
{
    vstd::arithmetic::div_mod::lemma_div_is_ordered_by_denominator(
        0x1_0000_0000, NEAR_PLANE as int, z,
    );
    vstd::arithmetic::div_mod::lemma_div_is_ordered_by_denominator(0x1_0000_0000, z, 0x2000_0000);
    lemma_div_multiples_vanish(0x10_0000, 0x1000);
    lemma_div_multiples_vanish(8, 0x2000_0000);
}

/// A texture coordinate divided by such a depth stays small.
proof fn lemma_uv_over_z_bounds(u: int, z: int)
    requires
        0 <= u <= UNIT,
        NEAR_PLANE <= z <= 0x2000_0000,
    ensures
        0 <= u * UNIT / z <= 0x10_0000,
{
    lemma_div_pos_is_pos(u * UNIT, z);
    vstd::arithmetic::div_mod::lemma_div_is_ordered(u * UNIT, 0x1_0000_0000, z);
    vstd::arithmetic::div_mod::lemma_div_is_ordered_by_denominator(
        0x1_0000_0000, NEAR_PLANE as int, z,
    );
    lemma_div_multiples_vanish(0x10_0000, 0x1000);
}

/// Recovering a depth from such an inverse depth stays in range.
proof fn lemma_depth_from_inv(iz: int)
    requires
        8 <= iz <= 0x10_0000,
    ensures
        0x1000 <= 0x1_0000_0000int / iz <= 0x2000_0000,
{
    vstd::arithmetic::div_mod::lemma_div_is_ordered_by_denominator(0x1_0000_0000, 8, iz);
    vstd::arithmetic::div_mod::lemma_div_is_ordered_by_denominator(
        0x1_0000_0000, iz, 0x10_0000,
    );
    lemma_div_multiples_vanish(0x2000_0000, 8);
    lemma_div_multiples_vanish(0x1000, 0x10_0000);
}

/// The rescaled reflection term stays comfortably inside the coordinate
/// range.
proof fn lemma_reflect_quotient_bound(num: int)
    requires
        -0x20_0000_0000_0000 <= num <= 0x20_0000_0000_0000,
    ensures
        -0x20_0000 <= num / 0x1_0000_0000 <= 0x20_0000,
{
    vstd::arithmetic::div_mod::lemma_div_is_ordered(num, 0x20_0000_0000_0000, 0x1_0000_0000);
    vstd::arithmetic::div_mod::lemma_div_is_ordered(-0x20_0000_0000_0000, num, 0x1_0000_0000);
    lemma_div_multiples_vanish(0x20_0000, 0x1_0000_0000);
    lemma_div_multiples_vanish(-0x20_0000, 0x1_0000_0000);
}

/// Round trip with rounding: for any point in front of the camera the
/// unprojection of the projection never overshoots the coordinate, and
/// undershoots it by at most the extent the four floor divisions can
/// lose: `z * (2 * cpix + vsize) / (d * cpix) + 1`, about one pixel's
/// worth of viewport at the point's depth.
pub proof fn lemma_unproject_project_tolerance(x: int, z: int, d: int, cpix: int, vsize: int)
    requires
        z > 0,
        d > 0,
        cpix > 0,
        vsize > 0,
    ensures
        Rasterizer::unprojected(
            Rasterizer::projected(x, z, d, cpix, vsize), z, d, cpix, vsize,
        ) <= x,
        x - Rasterizer::unprojected(
            Rasterizer::projected(x, z, d, cpix, vsize), z, d, cpix, vsize,
        ) <= z * (2 * cpix + vsize) / (d * cpix) + 1,
{
    let t = x * d / z;
    let p = t * cpix / vsize;
    let u = p * vsize / cpix;
    let r = u * z / d;
    lemma_fundamental_div_mod(x * d, z);
    vstd::arithmetic::div_mod::lemma_mod_bound(x * d, z);
    lemma_fundamental_div_mod(t * cpix, vsize);
    vstd::arithmetic::div_mod::lemma_mod_bound(t * cpix, vsize);
    lemma_fundamental_div_mod(p * vsize, cpix);
    vstd::arithmetic::div_mod::lemma_mod_bound(p * vsize, cpix);
    lemma_fundamental_div_mod(u * z, d);
    vstd::arithmetic::div_mod::lemma_mod_bound(u * z, d);
    assert(z * t == t * z && vsize * p == p * vsize && cpix * u == u * cpix
        && d * r == r * d) by (nonlinear_arith);
    assert(t * z <= x * d < t * z + z);
    assert(p * vsize <= t * cpix < p * vsize + vsize);
    assert(u * cpix <= p * vsize < u * cpix + cpix);
    assert(r * d <= u * z < r * d + d);
    // never overshoot: each stage stays at or below the exact value
    assert(u <= t) by (nonlinear_arith)
        requires
            u * cpix <= p * vsize,
            p * vsize <= t * cpix,
            cpix > 0;
    assert(r <= x) by (nonlinear_arith)
        requires
            r * d <= u * z,
            u <= t,
            z > 0,
            t * z <= x * d,
            d > 0;
    // undershoot by less than one unit of each division, carried through
    assert((x - r) * (d * cpix) < d * cpix + 2 * (cpix * z) + vsize * z)
        by (nonlinear_arith)
        requires
            z > 0,
            d > 0,
            cpix > 0,
            vsize > 0,
            t * z <= x * d < t * z + z,
            p * vsize <= t * cpix < p * vsize + vsize,
            u * cpix <= p * vsize < u * cpix + cpix,
            r * d <= u * z < r * d + d;
    let nn = d * cpix + 2 * (cpix * z) + vsize * z;
    assert((x - r - 1) * (d * cpix) <= 2 * (cpix * z) + vsize * z) by (nonlinear_arith)
        requires
            (x - r) * (d * cpix) < nn,
            nn == d * cpix + 2 * (cpix * z) + vsize * z,
            d * cpix > 0 || true,
            d > 0,
            cpix > 0;
    assert(d * cpix > 0) by (nonlinear_arith)
        requires
            d > 0,
            cpix > 0;
    vstd::arithmetic::div_mod::lemma_div_is_ordered(
        (x - r - 1) * (d * cpix), 2 * (cpix * z) + vsize * z, d * cpix,
    );
    lemma_div_multiples_vanish(x - r - 1, d * cpix);
    assert((x - r - 1) * (d * cpix) == (d * cpix) * (x - r - 1)) by (nonlinear_arith);
    assert(2 * (cpix * z) + vsize * z == z * (2 * cpix + vsize)) by (nonlinear_arith);
}

/// For an exact division, quotient times divisor gives the dividend back.
proof fn lemma_div_exact_mul(a: int, b: int)
    requires
        b > 0,
        a % b == 0,
    ensures
        (a / b) * b == a,
{
    vstd::arithmetic::div_mod::lemma_fundamental_div_mod(a, b);
    assert((a / b) * b == a) by (nonlinear_arith)
        requires
            a == b * (a / b) + a % b,
            a % b == 0;
}

} // verus!
