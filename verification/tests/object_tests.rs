use rasta::canvas::{BufferCanvas, Canvas};
use rasta::draw::Rasterizer;
use rasta::light::{Light, Shading};
use rasta::math::{Mat4, Vec3};
use rasta::object::{Cube, Instance, ModelOptions, Triangle};
use rasta::rasterize::Color;
use rasta::UNIT;

const BLACK: Color = Color(0, 0, 0);

fn cube_in_front() -> Cube {
    // a unit cube from depth 1.0 to 2.0, faces colored distinctly
    Cube::new(
        Vec3(-UNIT, UNIT, UNIT),
        Vec3(-UNIT, -UNIT, UNIT),
        Vec3(UNIT, -UNIT, UNIT),
        Vec3(UNIT, UNIT, UNIT),
        Vec3(-UNIT, UNIT, 2 * UNIT),
        Vec3(-UNIT, -UNIT, 2 * UNIT),
        Vec3(UNIT, -UNIT, 2 * UNIT),
        Vec3(UNIT, UNIT, 2 * UNIT),
        Color(255, 0, 0),
        Color(0, 255, 0),
        Color(0, 0, 255),
        Color(255, 255, 0),
        Color(0, 255, 255),
        Color(255, 0, 255),
    )
}

#[test]
fn cube_has_twelve_triangles() {
    let cube = cube_in_front();
    assert_eq!(cube.triangles().len(), 12);
    assert!(cube.texture().is_none());
    // the first front triangle keeps the front color and winding
    let t = &cube.triangles()[0];
    assert_eq!(t.p0, Vec3(-UNIT, UNIT, UNIT));
    assert_eq!(t.p1, Vec3(-UNIT, -UNIT, UNIT));
    assert_eq!(t.p2, Vec3(UNIT, -UNIT, UNIT));
    assert_eq!(t.color, Color(255, 0, 0));
    assert!(t.uvs.is_none() && t.normals.is_none());
}

#[test]
fn draw_cube_covers_pixels() {
    let cube = cube_in_front();
    let mut r = Rasterizer::new(
        64, 64, UNIT, UNIT, UNIT,
        Mat4::identity(), Mat4::identity(),
        vec![Light::Directional(26214, Vec3(0, 26214, UNIT))],
    )
    .unwrap();
    r.shading = Shading::Gouraud;
    let mut c = BufferCanvas::new(64, 64, BLACK);
    r.draw_cube(&mut c, &cube);
    let mut covered = 0u32;
    for sy in 0..64u32 {
        for sx in 0..64u32 {
            if c.pixel(sx, sy) != BLACK {
                covered += 1;
            }
        }
    }
    assert!(covered > 0);
}

#[test]
fn render_instance_applies_shading_and_draws() {
    let cube = cube_in_front();
    let projection = Mat4::viewport_to_canvas(64, 64, UNIT, UNIT);
    let mut r = Rasterizer::new(
        64, 64, UNIT, UNIT, UNIT,
        Mat4::identity(), projection,
        vec![Light::Directional(26214, Vec3(0, 26214, UNIT))],
    )
    .unwrap();
    let instance = Instance::new().shading(Shading::Gouraud).build();
    let mut c = BufferCanvas::new(64, 64, BLACK);
    r.render_instance(&mut c, &instance, cube.triangles(), None);
    assert_eq!(r.shading, Shading::Gouraud);
    let mut covered = 0u32;
    for sy in 0..64u32 {
        for sx in 0..64u32 {
            if c.pixel(sx, sy) != BLACK {
                covered += 1;
            }
        }
    }
    assert!(covered > 0);
}

#[test]
fn instance_builder_defaults_and_setters() {
    let mut i = Instance::new()
        .pos(Vec3(1, 2, 3))
        .scale(Vec3(UNIT, UNIT, UNIT))
        .rotation_y(0, UNIT)
        .color(Color(9, 9, 9))
        .build();
    assert_eq!(i.pos(), Vec3(1, 2, 3));
    assert_eq!(i.rotation(), (0, UNIT));
    assert_eq!(i.shading(), Shading::Gouraud);
    // with no rotation and unit scale the transform is the translation
    assert_eq!(i.transform_matrix, Mat4::translate(Vec3(1, 2, 3)));

    i.set_pos(Vec3(4, 5, 6));
    i.set_rotation(UNIT, 0);
    i.update_transform_matrix();
    assert_eq!(i.pos(), Vec3(4, 5, 6));
    assert_eq!(i.rotation(), (UNIT, 0));
    // a quarter turn about the vertical axis, then the translation
    assert_eq!(
        i.transform_matrix,
        Mat4::new(
            0, 0, -UNIT, 4,
            0, UNIT, 0, 5,
            UNIT, 0, 0, 6,
            0, 0, 0, UNIT,
        )
    );
}

#[test]
fn triangle_transform_moves_geometry_only() {
    let t = Triangle::new(
        Vec3(UNIT, 0, UNIT),
        Vec3(0, UNIT, UNIT),
        Vec3(0, 0, UNIT),
        Color(1, 2, 3),
        None,
    );
    let m = Mat4::translate(Vec3(10, 20, 30));
    let r = t.transform(&m, &Mat4::identity());
    assert_eq!(r.p0, Vec3(UNIT + 10, 20, UNIT + 30));
    assert_eq!(r.p1, Vec3(10, UNIT + 20, UNIT + 30));
    assert_eq!(r.p2, Vec3(10, 20, UNIT + 30));
    assert_eq!(r.color, Color(1, 2, 3));
    assert!(r.uvs.is_none() && r.normals.is_none());
}

#[test]
fn triangle_normal_is_the_edge_cross_product() {
    let t = Triangle::new(
        Vec3(0, 0, 0),
        Vec3(2, 0, 0),
        Vec3(0, 3, 0),
        Color(0, 0, 0),
        None,
    );
    assert_eq!(t.normal(), Vec3(0, 0, 6));
    assert_eq!(t.vertex(0), Vec3(0, 0, 0));
    assert_eq!(t.vertex(2), Vec3(0, 3, 0));
}

#[test]
fn wireframe_model_outlines_triangles() {
    let cube = cube_in_front();
    let r = Rasterizer::new(
        128, 128, UNIT, UNIT, UNIT,
        Mat4::identity(), Mat4::identity(),
        vec![],
    )
    .unwrap();
    let mut c = BufferCanvas::new(128, 128, BLACK);
    r.draw_cube_wireframe_obj(&mut c, &cube);
    let mut covered = 0u32;
    for sy in 0..128u32 {
        for sx in 0..128u32 {
            if c.pixel(sx, sy) != BLACK {
                covered += 1;
            }
        }
    }
    assert!(covered > 0);
}

#[test]
fn model_options_default_is_solid() {
    let o = ModelOptions::default();
    assert!(!o.wireframe);
}
