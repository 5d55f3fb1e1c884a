//! Scene data: triangles, the cube model, and placed instances.

use vstd::prelude::*;
use crate::fixed::fits;
use crate::light::Shading;
use crate::math::{m4_entry, m4_mul_entry, m4_bounded, m4_scale, Mat4, Vec2, Vec3, Vec4};
use crate::rasterize::Color;
use crate::texture::Texture;

verus! {

/// A vector small enough that edge differences still fit the product
/// arithmetic.
pub open spec fn vec3_small(v: Vec3) -> bool {
    &&& -0x2000_0000 <= v.0 <= 0x2000_0000
    &&& -0x2000_0000 <= v.1 <= 0x2000_0000
    &&& -0x2000_0000 <= v.2 <= 0x2000_0000
}

/// A triangle with a flat color and, optionally, one texture coordinate
/// and one normal per vertex.  The same type carries the triangle through
/// every pipeline stage; `transform` returns the next stage's value.
#[derive(Clone, Copy, Debug)]
pub struct Triangle {
    pub p0: Vec3,
    pub p1: Vec3,
    pub p2: Vec3,
    pub color: Color,
    pub uvs: Option<(Vec2, Vec2, Vec2)>,
    pub normals: Option<(Vec3, Vec3, Vec3)>,
}

impl Triangle {
    /// Vertices small enough for the edge and normal arithmetic, and
    /// per-vertex attributes in range when present.
    pub open spec fn bounded(&self) -> bool {
        &&& vec3_small(self.p0)
        &&& vec3_small(self.p1)
        &&& vec3_small(self.p2)
        &&& match self.normals {
            Some(ns) => ns.0.bounded() && ns.1.bounded() && ns.2.bounded(),
            None => true,
        }
        &&& match self.uvs {
            Some(uvs) => uvs.0.bounded() && uvs.1.bounded() && uvs.2.bounded(),
            None => true,
        }
    }

    pub fn new(p0: Vec3, p1: Vec3, p2: Vec3, color: Color, normals: Option<(Vec3, Vec3, Vec3)>)
        -> (r: Triangle)
        ensures
            r == (Triangle { p0, p1, p2, color, uvs: Option::<(Vec2, Vec2, Vec2)>::None, normals }),
    {
        Triangle { p0, p1, p2, color, uvs: None, normals }
    }

    pub fn new_with_uvs(
        p0: Vec3,
        p1: Vec3,
        p2: Vec3,
        uvs: (Vec2, Vec2, Vec2),
        normals: Option<(Vec3, Vec3, Vec3)>,
    ) -> (r: Triangle)
        ensures
            r == (Triangle {
                p0, p1, p2,
                color: Color { 0: 0u8, 1: 0u8, 2: 0u8 },
                uvs: Some(uvs),
                normals,
            }),
    {
        Triangle { p0, p1, p2, color: Color(0, 0, 0), uvs: Some(uvs), normals }
    }

    /// The vertex with the given index.
    pub fn vertex(&self, i: u8) -> (r: Vec3)
        requires
            i < 3,
        ensures
            r == if i == 0 { self.p0 } else if i == 1 { self.p1 } else { self.p2 },
    {
        if i == 0 {
            self.p0
        } else if i == 1 {
            self.p1
        } else {
            self.p2
        }
    }

    /// The geometric normal: the cross product of two edges, not
    /// normalized.
    pub fn normal(&self) -> (r: Vec3)
        requires
            vec3_small(self.p0),
            vec3_small(self.p1),
            vec3_small(self.p2),
        ensures
            r.0 == (self.p1.1 - self.p0.1) * (self.p2.2 - self.p0.2)
                - (self.p1.2 - self.p0.2) * (self.p2.1 - self.p0.1),
            r.1 == (self.p1.2 - self.p0.2) * (self.p2.0 - self.p0.0)
                - (self.p1.0 - self.p0.0) * (self.p2.2 - self.p0.2),
            r.2 == (self.p1.0 - self.p0.0) * (self.p2.1 - self.p0.1)
                - (self.p1.1 - self.p0.1) * (self.p2.0 - self.p0.0),
            -0x2000_0000_0000_0000 <= r.0 <= 0x2000_0000_0000_0000,
            -0x2000_0000_0000_0000 <= r.1 <= 0x2000_0000_0000_0000,
            -0x2000_0000_0000_0000 <= r.2 <= 0x2000_0000_0000_0000,
    {
        let v1 = self.p1.sub(&self.p0);
        let v2 = self.p2.sub(&self.p0);
        proof {
            assert(-0x2000_0000_0000_0000 <= (v1.1 * v2.2 - v1.2 * v2.1) <= 0x2000_0000_0000_0000
                && -0x2000_0000_0000_0000 <= (v1.2 * v2.0 - v1.0 * v2.2) <= 0x2000_0000_0000_0000
                && -0x2000_0000_0000_0000 <= (v1.0 * v2.1 - v1.1 * v2.0) <= 0x2000_0000_0000_0000)
                by (nonlinear_arith)
                requires
                    -0x4000_0000 <= v1.0 <= 0x4000_0000,
                    -0x4000_0000 <= v1.1 <= 0x4000_0000,
                    -0x4000_0000 <= v1.2 <= 0x4000_0000,
                    -0x4000_0000 <= v2.0 <= 0x4000_0000,
                    -0x4000_0000 <= v2.1 <= 0x4000_0000,
                    -0x4000_0000 <= v2.2 <= 0x4000_0000;
        }
        v1.cross(&v2)
    }

    /// Move the geometry by `m` and the normals by `view_proj`, leaving
    /// color and texture coordinates as they are.
    pub fn transform(&self, m: &Mat4, view_proj: &Mat4) -> (r: Triangle)
        requires
            m4_bounded(*m),
            m4_bounded(*view_proj),
            self.bounded(),
        ensures
            r.p0.0 == crate::math::m4_apply_entry(*m, (Vec4 {
                0: self.p0.0, 1: self.p0.1, 2: self.p0.2, 3: crate::fixed::UNIT as i64,
            }), 0),
            r.p0.1 == crate::math::m4_apply_entry(*m, (Vec4 {
                0: self.p0.0, 1: self.p0.1, 2: self.p0.2, 3: crate::fixed::UNIT as i64,
            }), 1),
            r.p0.2 == crate::math::m4_apply_entry(*m, (Vec4 {
                0: self.p0.0, 1: self.p0.1, 2: self.p0.2, 3: crate::fixed::UNIT as i64,
            }), 2),
            r.p1.0 == crate::math::m4_apply_entry(*m, (Vec4 {
                0: self.p1.0, 1: self.p1.1, 2: self.p1.2, 3: crate::fixed::UNIT as i64,
            }), 0),
            r.p1.1 == crate::math::m4_apply_entry(*m, (Vec4 {
                0: self.p1.0, 1: self.p1.1, 2: self.p1.2, 3: crate::fixed::UNIT as i64,
            }), 1),
            r.p1.2 == crate::math::m4_apply_entry(*m, (Vec4 {
                0: self.p1.0, 1: self.p1.1, 2: self.p1.2, 3: crate::fixed::UNIT as i64,
            }), 2),
            r.p2.0 == crate::math::m4_apply_entry(*m, (Vec4 {
                0: self.p2.0, 1: self.p2.1, 2: self.p2.2, 3: crate::fixed::UNIT as i64,
            }), 0),
            r.p2.1 == crate::math::m4_apply_entry(*m, (Vec4 {
                0: self.p2.0, 1: self.p2.1, 2: self.p2.2, 3: crate::fixed::UNIT as i64,
            }), 1),
            r.p2.2 == crate::math::m4_apply_entry(*m, (Vec4 {
                0: self.p2.0, 1: self.p2.1, 2: self.p2.2, 3: crate::fixed::UNIT as i64,
            }), 2),
            r.color == self.color,
            r.uvs == self.uvs,
            self.normals is None ==> r.normals is None,
            self.normals matches Some(ns) ==> r.normals matches Some(rns)
                && rns.0.0 == crate::math::m4_apply_entry(*view_proj, (Vec4 {
                    0: ns.0.0, 1: ns.0.1, 2: ns.0.2, 3: crate::fixed::UNIT as i64,
                }), 0)
                && rns.0.1 == crate::math::m4_apply_entry(*view_proj, (Vec4 {
                    0: ns.0.0, 1: ns.0.1, 2: ns.0.2, 3: crate::fixed::UNIT as i64,
                }), 1)
                && rns.0.2 == crate::math::m4_apply_entry(*view_proj, (Vec4 {
                    0: ns.0.0, 1: ns.0.1, 2: ns.0.2, 3: crate::fixed::UNIT as i64,
                }), 2)
                && rns.1.0 == crate::math::m4_apply_entry(*view_proj, (Vec4 {
                    0: ns.1.0, 1: ns.1.1, 2: ns.1.2, 3: crate::fixed::UNIT as i64,
                }), 0)
                && rns.1.1 == crate::math::m4_apply_entry(*view_proj, (Vec4 {
                    0: ns.1.0, 1: ns.1.1, 2: ns.1.2, 3: crate::fixed::UNIT as i64,
                }), 1)
                && rns.1.2 == crate::math::m4_apply_entry(*view_proj, (Vec4 {
                    0: ns.1.0, 1: ns.1.1, 2: ns.1.2, 3: crate::fixed::UNIT as i64,
                }), 2)
                && rns.2.0 == crate::math::m4_apply_entry(*view_proj, (Vec4 {
                    0: ns.2.0, 1: ns.2.1, 2: ns.2.2, 3: crate::fixed::UNIT as i64,
                }), 0)
                && rns.2.1 == crate::math::m4_apply_entry(*view_proj, (Vec4 {
                    0: ns.2.0, 1: ns.2.1, 2: ns.2.2, 3: crate::fixed::UNIT as i64,
                }), 1)
                && rns.2.2 == crate::math::m4_apply_entry(*view_proj, (Vec4 {
                    0: ns.2.0, 1: ns.2.1, 2: ns.2.2, 3: crate::fixed::UNIT as i64,
                }), 2),
    {
        let p0 = m.mul_vec4(&self.p0.to_point_vec4());
        let p1 = m.mul_vec4(&self.p1.to_point_vec4());
        let p2 = m.mul_vec4(&self.p2.to_point_vec4());
        let normals = match &self.normals {
            Some(ns) => {
                let n0 = view_proj.mul_vec4(&ns.0.to_point_vec4()).drop_fourth_component();
                let n1 = view_proj.mul_vec4(&ns.1.to_point_vec4()).drop_fourth_component();
                let n2 = view_proj.mul_vec4(&ns.2.to_point_vec4()).drop_fourth_component();
                Some((n0, n1, n2))
            }
            None => None,
        };
        Triangle {
            p0: p0.drop_fourth_component(),
            p1: p1.drop_fourth_component(),
            p2: p2.drop_fourth_component(),
            color: self.color,
            uvs: self.uvs,
            normals,
        }
    }
}

/// Options a scene may set for a model.
#[derive(Clone, Copy, Debug, PartialEq, Eq, Structural)]
pub struct ModelOptions {
    pub wireframe: bool,
}

impl Default for ModelOptions {
    fn default() -> (r: ModelOptions)
        ensures
            r == (ModelOptions { wireframe: false }),
    {
        ModelOptions { wireframe: false }
    }
}

/// The twelve triangles of a box with the given corners and one color per
/// face; `f`/`b` is front/back, `t`/`b` top/bottom, `l`/`r` left/right.
pub open spec fn cube_triangles(
    ftl: Vec3, fbl: Vec3, fbr: Vec3, ftr: Vec3,
    btl: Vec3, bbl: Vec3, bbr: Vec3, btr: Vec3,
    front: Color, back: Color, left: Color, right: Color, top: Color, bottom: Color,
) -> Seq<Triangle> {
    seq![
        Triangle { p0: ftl, p1: fbl, p2: fbr, color: front, uvs: None, normals: None },
        Triangle { p0: ftr, p1: ftl, p2: fbr, color: front, uvs: None, normals: None },
        Triangle { p0: btr, p1: bbr, p2: bbl, color: back, uvs: None, normals: None },
        Triangle { p0: btl, p1: btr, p2: bbl, color: back, uvs: None, normals: None },
        Triangle { p0: ftl, p1: bbl, p2: fbl, color: left, uvs: None, normals: None },
        Triangle { p0: btl, p1: bbl, p2: ftl, color: left, uvs: None, normals: None },
        Triangle { p0: ftr, p1: fbr, p2: bbr, color: right, uvs: None, normals: None },
        Triangle { p0: bbr, p1: btr, p2: ftr, color: right, uvs: None, normals: None },
        Triangle { p0: ftl, p1: ftr, p2: btr, color: top, uvs: None, normals: None },
        Triangle { p0: btr, p1: btl, p2: ftl, color: top, uvs: None, normals: None },
        Triangle { p0: fbr, p1: fbl, p2: bbr, color: bottom, uvs: None, normals: None },
        Triangle { p0: bbl, p1: bbr, p2: fbl, color: bottom, uvs: None, normals: None },
    ]
}

/// A box model: twelve triangles and, possibly, a texture.
pub struct Cube {
    pub triangles: Vec<Triangle>,
    pub texture: Option<Texture>,
}

impl Cube {
    /// A flat-colored cube, one color per face, triangles wound as
    /// `cube_triangles` lays them out.
    pub fn new(
        ftl: Vec3, fbl: Vec3, fbr: Vec3, ftr: Vec3,
        btl: Vec3, bbl: Vec3, bbr: Vec3, btr: Vec3,
        front: Color, back: Color, left: Color, right: Color, top: Color, bottom: Color,
    ) -> (r: Cube)
        ensures
            r.triangles@ == cube_triangles(
                ftl, fbl, fbr, ftr, btl, bbl, bbr, btr,
                front, back, left, right, top, bottom,
            ),
            r.texture is None,
    {
        let mut triangles: Vec<Triangle> = Vec::new();
        triangles.push(Triangle::new(ftl, fbl, fbr, front, None));
        triangles.push(Triangle::new(ftr, ftl, fbr, front, None));
        triangles.push(Triangle::new(btr, bbr, bbl, back, None));
        triangles.push(Triangle::new(btl, btr, bbl, back, None));
        triangles.push(Triangle::new(ftl, bbl, fbl, left, None));
        triangles.push(Triangle::new(btl, bbl, ftl, left, None));
        triangles.push(Triangle::new(ftr, fbr, bbr, right, None));
        triangles.push(Triangle::new(bbr, btr, ftr, right, None));
        triangles.push(Triangle::new(ftl, ftr, btr, top, None));
        triangles.push(Triangle::new(btr, btl, ftl, top, None));
        triangles.push(Triangle::new(fbr, fbl, bbr, bottom, None));
        triangles.push(Triangle::new(bbl, bbr, fbl, bottom, None));
        proof {
            assert(triangles@ =~= cube_triangles(
                ftl, fbl, fbr, ftr, btl, bbl, bbr, btr,
                front, back, left, right, top, bottom,
            ));
        }
        Cube { triangles, texture: None }
    }

    /// A textured cube: the same winding, with one texture-coordinate
    /// triple per triangle instead of face colors.
    pub fn new_with_texture(
        ftl: Vec3, fbl: Vec3, fbr: Vec3, ftr: Vec3,
        btl: Vec3, bbl: Vec3, bbr: Vec3, btr: Vec3,
        tex_coords: &Vec<(Vec2, Vec2, Vec2)>,
        tex: Texture,
    ) -> (r: Cube)
        requires
            tex_coords@.len() == 12,
        ensures
            r.triangles@.len() == 12,
            forall|k: int| 0 <= k < 12 ==> (#[trigger] r.triangles@[k]).uvs == Some(tex_coords@[k]),
            r.triangles@[0].p0 == ftl && r.triangles@[0].p1 == fbl && r.triangles@[0].p2 == fbr,
            r.triangles@[1].p0 == ftr && r.triangles@[1].p1 == ftl && r.triangles@[1].p2 == fbr,
            r.triangles@[2].p0 == btr && r.triangles@[2].p1 == bbr && r.triangles@[2].p2 == bbl,
            r.triangles@[3].p0 == btl && r.triangles@[3].p1 == btr && r.triangles@[3].p2 == bbl,
            r.triangles@[4].p0 == ftl && r.triangles@[4].p1 == bbl && r.triangles@[4].p2 == fbl,
            r.triangles@[5].p0 == btl && r.triangles@[5].p1 == bbl && r.triangles@[5].p2 == ftl,
            r.triangles@[6].p0 == ftr && r.triangles@[6].p1 == fbr && r.triangles@[6].p2 == bbr,
            r.triangles@[7].p0 == bbr && r.triangles@[7].p1 == btr && r.triangles@[7].p2 == ftr,
            r.triangles@[8].p0 == ftl && r.triangles@[8].p1 == ftr && r.triangles@[8].p2 == btr,
            r.triangles@[9].p0 == btr && r.triangles@[9].p1 == btl && r.triangles@[9].p2 == ftl,
            r.triangles@[10].p0 == fbr && r.triangles@[10].p1 == fbl && r.triangles@[10].p2 == bbr,
            r.triangles@[11].p0 == bbl && r.triangles@[11].p1 == bbr && r.triangles@[11].p2 == fbl,
            forall|k: int| 0 <= k < 12 ==> (#[trigger] r.triangles@[k]).normals is None,
            forall|k: int| 0 <= k < 12
                ==> (#[trigger] r.triangles@[k]).color == (Color { 0: 0u8, 1: 0u8, 2: 0u8 }),
            r.texture matches Some(t) && t == tex,
    {
        let mut triangles: Vec<Triangle> = Vec::new();
        triangles.push(Triangle::new_with_uvs(ftl, fbl, fbr, tex_coords[0], None));
        triangles.push(Triangle::new_with_uvs(ftr, ftl, fbr, tex_coords[1], None));
        triangles.push(Triangle::new_with_uvs(btr, bbr, bbl, tex_coords[2], None));
        triangles.push(Triangle::new_with_uvs(btl, btr, bbl, tex_coords[3], None));
        triangles.push(Triangle::new_with_uvs(ftl, bbl, fbl, tex_coords[4], None));
        triangles.push(Triangle::new_with_uvs(btl, bbl, ftl, tex_coords[5], None));
        triangles.push(Triangle::new_with_uvs(ftr, fbr, bbr, tex_coords[6], None));
        triangles.push(Triangle::new_with_uvs(bbr, btr, ftr, tex_coords[7], None));
        triangles.push(Triangle::new_with_uvs(ftl, ftr, btr, tex_coords[8], None));
        triangles.push(Triangle::new_with_uvs(btr, btl, ftl, tex_coords[9], None));
        triangles.push(Triangle::new_with_uvs(fbr, fbl, bbr, tex_coords[10], None));
        triangles.push(Triangle::new_with_uvs(bbl, bbr, fbl, tex_coords[11], None));
        Cube { triangles, texture: Some(tex) }
    }

    pub fn triangles(&self) -> (r: &Vec<Triangle>)
        ensures
            r@ == self.triangles@,
    {
        &self.triangles
    }

    pub fn texture(&self) -> (r: Option<&Texture>)
        ensures
            r is Some <==> self.texture is Some,
            r matches Some(t) ==> self.texture matches Some(o) && *t == o,
    {
        self.texture.as_ref()
    }
}

/// The pose of an instance as a matrix: the rotation block with the
/// position in the translation column.  This equals translating after
/// rotating about the origin.
pub open spec fn pose_matrix(pos: Vec3, sin: i64, cos: i64) -> Mat4 {
    Mat4 {
        m00: cos, m01: 0i64, m02: (-(sin as int)) as i64, m03: pos.0,
        m10: 0i64, m11: crate::fixed::UNIT as i64, m12: 0i64, m13: pos.1,
        m20: sin, m21: 0i64, m22: cos, m23: pos.2,
        m30: 0i64, m31: 0i64, m32: 0i64, m33: crate::fixed::UNIT as i64,
    }
}

/// A model placed in the scene: a pose, a scale, a shading choice, and
/// the transform matrix built from them.
pub struct Instance {
    pub pos: Vec3,
    pub scale: Vec3,
    pub rot_sin: i64,
    pub rot_cos: i64,
    pub shading: Shading,
    pub color: Color,
    pub matrix_needs_update: bool,
    pub transform_matrix: Mat4,
}

/// The pose, scale and rotation an instance is built from are in range.
pub open spec fn instance_params_ok(pos: Vec3, scale: Vec3, sin: i64, cos: i64) -> bool {
    &&& pos.bounded()
    &&& scale.bounded()
    &&& -crate::fixed::UNIT <= sin <= crate::fixed::UNIT
    &&& -crate::fixed::UNIT <= cos <= crate::fixed::UNIT
}

impl Instance {
    pub open spec fn wf(&self) -> bool {
        &&& instance_params_ok(self.pos, self.scale, self.rot_sin, self.rot_cos)
        &&& !self.matrix_needs_update ==> forall|i: int, j: int|
            0 <= i < 4 && 0 <= j < 4
                ==> #[trigger] m4_entry(self.transform_matrix, i, j)
                    == m4_mul_entry(
                        pose_matrix(self.pos, self.rot_sin, self.rot_cos),
                        m4_scale(self.scale), i, j,
                    )
    }

    /// Start building an instance.
    pub fn new() -> (r: InstanceBuilder)
        ensures
            r == (InstanceBuilder {
                pos: Option::<Vec3>::None,
                scale: Option::<Vec3>::None,
                rotation_y: Option::<(i64, i64)>::None,
                color: Option::<Color>::None,
                shading: Option::<Shading>::None,
            }),
    {
        InstanceBuilder {
            pos: None,
            scale: None,
            rotation_y: None,
            color: None,
            shading: None,
        }
    }

    /// Rebuild the cached transform matrix if a setter invalidated it.
    pub fn update_transform_matrix(&mut self)
        requires
            instance_params_ok(
                old(self).pos, old(self).scale, old(self).rot_sin, old(self).rot_cos,
            ),
        ensures
            final(self).pos == old(self).pos,
            final(self).scale == old(self).scale,
            final(self).rot_sin == old(self).rot_sin,
            final(self).rot_cos == old(self).rot_cos,
            final(self).shading == old(self).shading,
            final(self).color == old(self).color,
            !final(self).matrix_needs_update,
            old(self).matrix_needs_update ==> forall|i: int, j: int|
                0 <= i < 4 && 0 <= j < 4
                    ==> #[trigger] m4_entry(final(self).transform_matrix, i, j)
                        == m4_mul_entry(
                            pose_matrix(old(self).pos, old(self).rot_sin, old(self).rot_cos),
                            m4_scale(old(self).scale), i, j,
                        ),
            !old(self).matrix_needs_update
                ==> final(self).transform_matrix == old(self).transform_matrix,
    {
        if self.matrix_needs_update {
            self.transform_matrix =
                build_transform_matrix(self.pos, self.scale, self.rot_sin, self.rot_cos);
            self.matrix_needs_update = false;
        }
    }

    /// The sine and cosine of the rotation about the vertical axis.
    pub fn rotation(&self) -> (r: (i64, i64))
        ensures
            r == (self.rot_sin, self.rot_cos),
    {
        (self.rot_sin, self.rot_cos)
    }

    pub fn set_rotation(&mut self, sin: i64, cos: i64)
        requires
            -crate::fixed::UNIT <= sin <= crate::fixed::UNIT,
            -crate::fixed::UNIT <= cos <= crate::fixed::UNIT,
        ensures
            final(self).rot_sin == sin,
            final(self).rot_cos == cos,
            final(self).matrix_needs_update,
            final(self).pos == old(self).pos,
            final(self).scale == old(self).scale,
            final(self).shading == old(self).shading,
            final(self).color == old(self).color,
            final(self).transform_matrix == old(self).transform_matrix,
    {
        self.rot_sin = sin;
        self.rot_cos = cos;
        self.matrix_needs_update = true;
    }

    pub fn pos(&self) -> (r: Vec3)
        ensures
            r == self.pos,
    {
        self.pos
    }

    pub fn set_pos(&mut self, pos: Vec3)
        requires
            pos.bounded(),
        ensures
            final(self).pos == pos,
            final(self).matrix_needs_update,
            final(self).rot_sin == old(self).rot_sin,
            final(self).rot_cos == old(self).rot_cos,
            final(self).scale == old(self).scale,
            final(self).shading == old(self).shading,
            final(self).color == old(self).color,
            final(self).transform_matrix == old(self).transform_matrix,
    {
        self.pos = pos;
        self.matrix_needs_update = true;
    }

    pub fn shading(&self) -> (r: Shading)
        ensures
            r == self.shading,
    {
        self.shading
    }
}

/// The cached transform: the pose matrix times the scale matrix.
fn build_transform_matrix(pos: Vec3, scale: Vec3, sin: i64, cos: i64) -> (r: Mat4)
    requires
        instance_params_ok(pos, scale, sin, cos),
    ensures
        forall|i: int, j: int|
            0 <= i < 4 && 0 <= j < 4
                ==> #[trigger] m4_entry(r, i, j)
                    == m4_mul_entry(pose_matrix(pos, sin, cos), m4_scale(scale), i, j),
{
    let pose = Mat4 {
        m00: cos, m01: 0, m02: -sin, m03: pos.0,
        m10: 0, m11: crate::fixed::UNIT, m12: 0, m13: pos.1,
        m20: sin, m21: 0, m22: cos, m23: pos.2,
        m30: 0, m31: 0, m32: 0, m33: crate::fixed::UNIT,
    };
    let scale_m = Mat4::scale(scale);
    pose.mul(&scale_m)
}

/// Collects the settings of an instance before it is built.
pub struct InstanceBuilder {
    pub pos: Option<Vec3>,
    pub scale: Option<Vec3>,
    pub rotation_y: Option<(i64, i64)>,
    pub color: Option<Color>,
    pub shading: Option<Shading>,
}

impl InstanceBuilder {
    pub fn pos(self, pos: Vec3) -> (r: InstanceBuilder)
        ensures
            r == (InstanceBuilder { pos: Some(pos), ..self }),
    {
        InstanceBuilder { pos: Some(pos), ..self }
    }

    pub fn scale(self, scale: Vec3) -> (r: InstanceBuilder)
        ensures
            r == (InstanceBuilder { scale: Some(scale), ..self }),
    {
        InstanceBuilder { scale: Some(scale), ..self }
    }

    /// Rotation about the vertical axis, as the angle's sine and cosine.
    pub fn rotation_y(self, sin: i64, cos: i64) -> (r: InstanceBuilder)
        ensures
            r == (InstanceBuilder { rotation_y: Some((sin, cos)), ..self }),
    {
        InstanceBuilder { rotation_y: Some((sin, cos)), ..self }
    }

    pub fn color(self, c: Color) -> (r: InstanceBuilder)
        ensures
            r == (InstanceBuilder { color: Some(c), ..self }),
    {
        InstanceBuilder { color: Some(c), ..self }
    }

    pub fn shading(self, s: Shading) -> (r: InstanceBuilder)
        ensures
            r == (InstanceBuilder { shading: Some(s), ..self }),
    {
        InstanceBuilder { shading: Some(s), ..self }
    }

    /// Finish the instance.  Defaults: the origin, unit scale, no
    /// rotation, black, Gouraud shading.
    pub fn build(self) -> (r: Instance)
        requires
            self.pos matches Some(p) ==> p.bounded(),
            self.scale matches Some(s) ==> s.bounded(),
            self.rotation_y matches Some(rot)
                ==> -crate::fixed::UNIT <= rot.0 <= crate::fixed::UNIT
                    && -crate::fixed::UNIT <= rot.1 <= crate::fixed::UNIT,
        ensures
            r.wf(),
            r.pos == (match self.pos {
                Some(p) => p,
                None => Vec3 { 0: 0i64, 1: 0i64, 2: 0i64 },
            }),
            r.shading == (match self.shading {
                Some(s) => s,
                None => Shading::Gouraud,
            }),
            r.color == (match self.color {
                Some(c) => c,
                None => Color { 0: 0u8, 1: 0u8, 2: 0u8 },
            }),
            !r.matrix_needs_update,
    {
        let pos = match self.pos {
            Some(p) => p,
            None => Vec3(0, 0, 0),
        };
        let scale = match self.scale {
            Some(s) => s,
            None => Vec3(crate::fixed::UNIT, crate::fixed::UNIT, crate::fixed::UNIT),
        };
        let (rot_sin, rot_cos) = match self.rotation_y {
            Some(rc) => rc,
            None => (0, crate::fixed::UNIT),
        };
        let color = match self.color {
            Some(c) => c,
            None => Color(0, 0, 0),
        };
        let shading = match self.shading {
            Some(s) => s,
            None => Shading::Gouraud,
        };
        let transform_matrix = build_transform_matrix(pos, scale, rot_sin, rot_cos);
        Instance {
            pos,
            scale,
            rot_sin,
            rot_cos,
            shading,
            color,
            matrix_needs_update: false,
            transform_matrix,
        }
    }
}

} // verus!
