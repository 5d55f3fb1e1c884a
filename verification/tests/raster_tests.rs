use rasta::canvas::{canvas_coords_to_screen_coords, BufferCanvas, Canvas};
use rasta::draw::Rasterizer;
use rasta::light::{Light, Shading};
use rasta::math::{Mat4, Vec3};
use rasta::object::Triangle;
use rasta::rasterize::{Color, Point};
use rasta::UNIT;

const BLACK: Color = Color(0, 0, 0);

fn make_raster(cw: i64, ch: i64) -> Rasterizer {
    Rasterizer::new(
        cw,
        ch,
        UNIT,
        UNIT,
        UNIT,
        Mat4::identity(),
        Mat4::identity(),
        vec![
            Light::Ambient(13107),
            Light::Directional(26214, Vec3(0, 0, UNIT)),
        ],
    )
    .unwrap()
}

#[test]
fn screen_coordinate_mapping() {
    assert_eq!(canvas_coords_to_screen_coords(0i64, 0i64, 10, 10), Some((5, 4)));
    assert_eq!(canvas_coords_to_screen_coords(-5i64, 4i64, 10, 10), Some((0, 0)));
    assert_eq!(canvas_coords_to_screen_coords(4i64, -5i64, 10, 10), Some((9, 9)));
    assert_eq!(canvas_coords_to_screen_coords(5i64, 0i64, 10, 10), None);
    assert_eq!(canvas_coords_to_screen_coords(0i64, -6i64, 10, 10), None);
    assert_eq!(canvas_coords_to_screen_coords(0i32, 5i32, 10, 10), None);
}

#[test]
fn put_pixel_nearest_wins_in_either_order() {
    let red = Color(255, 0, 0);
    let blue = Color(0, 0, 255);

    // near (larger inverse depth) drawn first: far write is dropped
    let mut r1 = make_raster(16, 16);
    let mut c1 = BufferCanvas::new(16, 16, BLACK);
    r1.put_pixel(&mut c1, 1, 1, 1000, red);
    r1.put_pixel(&mut c1, 1, 1, 500, blue);

    // far drawn first: near write overwrites it
    let mut r2 = make_raster(16, 16);
    let mut c2 = BufferCanvas::new(16, 16, BLACK);
    r2.put_pixel(&mut c2, 1, 1, 500, blue);
    r2.put_pixel(&mut c2, 1, 1, 1000, red);

    let (sx, sy) = canvas_coords_to_screen_coords(1i64, 1i64, 16, 16).unwrap();
    assert_eq!(c1.pixel(sx, sy), red);
    assert_eq!(c2.pixel(sx, sy), red);
}

fn near_far_triangles() -> (Triangle, Triangle) {
    // both face the camera reference point at the origin
    let near = Triangle::new(
        Vec3(-UNIT, -UNIT, 2 * UNIT),
        Vec3(0, UNIT, 2 * UNIT),
        Vec3(UNIT, -UNIT, 2 * UNIT),
        Color(255, 0, 0),
        None,
    );
    let far = Triangle::new(
        Vec3(-UNIT, -UNIT, 4 * UNIT),
        Vec3(0, UNIT, 4 * UNIT),
        Vec3(UNIT, -UNIT, 4 * UNIT),
        Color(0, 0, 255),
        None,
    );
    (near, far)
}

fn draw_pair(first: &Triangle, second: &Triangle) -> BufferCanvas {
    let mut r = make_raster(64, 64);
    r.shading = Shading::Gouraud;
    let mut c = BufferCanvas::new(64, 64, BLACK);
    let center = Vec3(0, 0, 0);
    let dir = Vec3(0, 26214, UNIT);
    let cam = Vec3(0, 0, 0);
    let p0 = Point::new(-5, -5);
    let p1 = Point::new(5, -5);
    let p2 = Point::new(0, 5);
    r.draw_triangle(&mut c, center, dir, &cam, first, None, p0, p1, p2);
    r.draw_triangle(&mut c, center, dir, &cam, second, None, p0, p1, p2);
    c
}

#[test]
fn depth_ordering_is_draw_order_independent() {
    let (near, far) = near_far_triangles();
    let ab = draw_pair(&near, &far);
    let ba = draw_pair(&far, &near);

    let mut covered = 0u32;
    for sy in 0..64u32 {
        for sx in 0..64u32 {
            // either order shows the same frame: the nearer triangle
            assert_eq!(ab.pixel(sx, sy), ba.pixel(sx, sy));
            if ab.pixel(sx, sy) != BLACK {
                covered += 1;
                // the far triangle is blue-only; the near one has no blue
                assert_eq!(ab.pixel(sx, sy).2, 0);
            }
        }
    }
    assert!(covered > 0);
}

#[test]
fn back_face_produces_no_writes() {
    // reversed winding: the normal points away from the camera point
    let back = Triangle::new(
        Vec3(-UNIT, -UNIT, 2 * UNIT),
        Vec3(UNIT, -UNIT, 2 * UNIT),
        Vec3(0, UNIT, 2 * UNIT),
        Color(255, 255, 255),
        None,
    );
    let mut r = make_raster(64, 64);
    r.shading = Shading::Gouraud;
    let mut c = BufferCanvas::new(64, 64, BLACK);
    r.draw_triangle(
        &mut c,
        Vec3(0, 0, 0),
        Vec3(0, 26214, UNIT),
        &Vec3(0, 0, 0),
        &back,
        None,
        Point::new(-5, -5),
        Point::new(5, -5),
        Point::new(0, 5),
    );
    for sy in 0..64u32 {
        for sx in 0..64u32 {
            assert_eq!(c.pixel(sx, sy), BLACK);
        }
    }
}

#[test]
fn flat_triangle_fills_exact_scanlines() {
    let red = Color(200, 10, 10);
    let mut c = BufferCanvas::new(40, 40, BLACK);
    Rasterizer::draw_shaded_triangle(
        &mut c,
        (Point::new(0, 0), red),
        (Point::new(10, 0), red),
        (Point::new(5, 10), red),
    );
    for sy in 0..40u32 {
        for sx in 0..40u32 {
            let x = sx as i64 - 20;
            let y = 20 - sy as i64 - 1;
            let inside = if 0 <= y && y <= 10 {
                let xl = y / 2;
                let xr = 10 + (-5 * y).div_euclid(10);
                xl <= x && x <= xr
            } else {
                false
            };
            if inside {
                assert_eq!(c.pixel(sx, sy), red, "expected fill at ({}, {})", x, y);
            } else {
                assert_eq!(c.pixel(sx, sy), BLACK, "expected background at ({}, {})", x, y);
            }
        }
    }
    // the base row spans [0, 10]; the apex row narrows to the single
    // pixel at x = 5
    let (sx0, sy0) = canvas_coords_to_screen_coords(0i64, 0i64, 40, 40).unwrap();
    assert_eq!(c.pixel(sx0, sy0), red);
    let (sxa, sya) = canvas_coords_to_screen_coords(5i64, 10i64, 40, 40).unwrap();
    assert_eq!(c.pixel(sxa, sya), red);
    let (sxb, syb) = canvas_coords_to_screen_coords(4i64, 10i64, 40, 40).unwrap();
    assert_eq!(c.pixel(sxb, syb), BLACK);
}

#[test]
fn gradient_line_spans_dominant_axis_monotonically() {
    let green = Color(0, 255, 0);
    let blue = Color(0, 0, 255);
    let mut c = BufferCanvas::new(200, 500, BLACK);
    Rasterizer::draw_shaded_line(
        &mut c,
        (Point::new(-50, -200), green),
        (Point::new(60, 240), blue),
    );
    let mut count = 0u32;
    let mut last: Option<Color> = None;
    // walk rows from the green end (low y) to the blue end
    for y in -200..=240i64 {
        let sy = (250 - y - 1) as u32;
        let mut row_color: Option<Color> = None;
        for sx in 0..200u32 {
            let p = c.pixel(sx, sy);
            if p != BLACK {
                assert!(row_color.is_none(), "one pixel per row of the dominant axis");
                row_color = Some(p);
                count += 1;
            }
        }
        let p = row_color.expect("every row in the span is covered");
        if let Some(prev) = last {
            assert!(p.1 <= prev.1, "green only fades");
            assert!(p.2 >= prev.2, "blue only grows");
        }
        last = Some(p);
    }
    assert_eq!(count, 441);
    assert_eq!(last.unwrap(), Color(0, 0, 255));
}

#[test]
fn project_unproject_round_trip() {
    let r = make_raster(128, 128);
    // a point whose projection divides exactly round-trips exactly
    let v = Vec3(2 * UNIT, UNIT, UNIT);
    let p = r.project_vertex(v).unwrap();
    assert_eq!(p.0, 256);
    let back = r.unproject_point(p.0, p.1, v.2).unwrap();
    assert_eq!(back, v);

    // elsewhere the recovery undershoots by at most the proved floor
    // tolerance z * (2 * cw + vw) / (d * cw) + 1, and never overshoots
    let v2 = Vec3(16385, 30001, 2 * UNIT);
    let p2 = r.project_vertex(v2).unwrap();
    let back2 = r.unproject_point(p2.0, p2.1, v2.2).unwrap();
    let z = 2 * UNIT as i128;
    let tolerance = (z * (2 * 128 + UNIT as i128) / (UNIT as i128 * 128) + 1) as i64;
    assert!(back2.0 <= v2.0 && back2.1 <= v2.1);
    assert!(v2.0 - back2.0 <= tolerance);
    assert!(v2.1 - back2.1 <= tolerance);
    assert_eq!(back2.2, v2.2);
}

#[test]
fn rasterizer_refuses_singular_camera() {
    let singular = Mat4::scale(Vec3(0, UNIT, UNIT));
    let r = Rasterizer::new(64, 64, UNIT, UNIT, UNIT, singular, Mat4::identity(), vec![]);
    assert!(r.is_none());
    let r2 = Rasterizer::new(64, 64, UNIT, UNIT, UNIT, Mat4::identity(), singular, vec![]);
    assert!(r2.is_none());
}

#[test]
fn illumination_directional_only() {
    let center = Vec3(0, 0, 2 * UNIT);
    let normal = Vec3(0, 0, -UNIT);
    let cam = Vec3(0, 0, 0);
    // light shining along +z onto a -z facing surface: full diffuse, no
    // specular (the reflection leaves away from the viewer)
    let light = Light::Directional(UNIT, Vec3(0, 0, UNIT));
    let got = Rasterizer::compute_illumination(center, &cam, normal, &light).unwrap();
    assert_eq!(got, 13107 + UNIT);

    // moving the camera behind the surface turns the reflection toward
    // the viewer and adds the full specular term
    let behind = Vec3(0, 0, 4 * UNIT);
    let with_specular =
        Rasterizer::compute_illumination(center, &behind, normal, &light).unwrap();
    assert_eq!(with_specular, 13107 + 2 * UNIT);

    assert!(Rasterizer::compute_illumination(center, &cam, normal, &Light::Ambient(UNIT)).is_err());
    assert!(Rasterizer::compute_illumination(
        center, &cam, normal, &Light::Point(UNIT, Vec3(0, 0, 0)),
    )
    .is_err());
}

#[test]
fn culling_test_is_a_sign_test() {
    let r = make_raster(16, 16);
    let (near, _) = near_far_triangles();
    assert!(!r.should_cull(&near, Vec3(0, 0, 0)));
    // seen from behind, the same triangle is culled
    assert!(r.should_cull(&near, Vec3(0, 0, 8 * UNIT)));
}

#[test]
fn wireframe_draws_three_edges() {
    let mut c = BufferCanvas::new(64, 64, BLACK);
    let white = Color(255, 255, 255);
    Rasterizer::draw_wireframe_triangle(
        &mut c,
        Point::new(-10, -10),
        Point::new(10, -10),
        Point::new(0, 10),
        white,
    );
    // the three corners are on the outline
    for (x, y) in [(-10i64, -10i64), (10, -10), (0, 10)] {
        let (sx, sy) = canvas_coords_to_screen_coords(x, y, 64, 64).unwrap();
        assert_eq!(c.pixel(sx, sy), white);
    }
    // the centroid is not
    let (sx, sy) = canvas_coords_to_screen_coords(0i64, -3i64, 64, 64).unwrap();
    assert_eq!(c.pixel(sx, sy), BLACK);
}

#[test]
fn flat_line_is_a_constant_gradient() {
    let mut c1 = BufferCanvas::new(64, 64, BLACK);
    let mut c2 = BufferCanvas::new(64, 64, BLACK);
    let teal = Color(0, 128, 128);
    Rasterizer::draw_line(&mut c1, Point::new(-10, 3), Point::new(12, 7), teal);
    Rasterizer::draw_shaded_line(&mut c2, (Point::new(-10, 3), teal), (Point::new(12, 7), teal));
    for sy in 0..64u32 {
        for sx in 0..64u32 {
            assert_eq!(c1.pixel(sx, sy), c2.pixel(sx, sy));
        }
    }
    let (sx, sy) = canvas_coords_to_screen_coords(-10i64, 3i64, 64, 64).unwrap();
    assert_eq!(c1.pixel(sx, sy), teal);
}

#[test]
fn color_channel_round_trip() {
    for c in 0..=255u8 {
        let col = Color(c, c.wrapping_add(37), 255 - c);
        assert_eq!(Color::from_vec3_scaled(col.to_vec3_scaled()), col);
    }
}

#[test]
fn cube_wireframe_draws_colored_squares() {
    let r = make_raster(128, 128);
    let mut c = BufferCanvas::new(128, 128, BLACK);
    // a cube from depth 1.0 to 2.0, half a unit wide
    let f = vec![
        Vec3(-UNIT / 2, UNIT / 2, UNIT),
        Vec3(-UNIT / 2, -UNIT / 2, UNIT),
        Vec3(UNIT / 2, -UNIT / 2, UNIT),
        Vec3(UNIT / 2, UNIT / 2, UNIT),
    ];
    let b = vec![
        Vec3(-UNIT / 2, UNIT / 2, 2 * UNIT),
        Vec3(-UNIT / 2, -UNIT / 2, 2 * UNIT),
        Vec3(UNIT / 2, -UNIT / 2, 2 * UNIT),
        Vec3(UNIT / 2, UNIT / 2, 2 * UNIT),
    ];
    r.draw_cube_wireframe(&mut c, &f, &b);
    // front top-left projects to (-64, 64); it is drawn last, in blue
    let (sx, sy) = canvas_coords_to_screen_coords(-64i64, 63i64, 128, 128).unwrap();
    assert_eq!(c.pixel(sx, sy), Color(0, 0, 255));
    // back corners halve under the perspective divide and stay red or green
    let (bx, by) = canvas_coords_to_screen_coords(-32i64, -32i64, 128, 128).unwrap();
    assert_ne!(c.pixel(bx, by), BLACK);
}

#[test]
fn behind_camera_cube_wireframe_draws_nothing() {
    let r = make_raster(64, 64);
    let mut c = BufferCanvas::new(64, 64, BLACK);
    let f = vec![Vec3(0, 0, -UNIT), Vec3(1, 0, UNIT), Vec3(1, 1, UNIT), Vec3(0, 1, UNIT)];
    let b = vec![Vec3(0, 0, UNIT), Vec3(1, 0, UNIT), Vec3(1, 1, UNIT), Vec3(0, 1, UNIT)];
    r.draw_cube_wireframe(&mut c, &f, &b);
    for sy in 0..64u32 {
        for sx in 0..64u32 {
            assert_eq!(c.pixel(sx, sy), BLACK);
        }
    }
}

#[test]
fn animated_cube_wireframe_spins_the_outline() {
    let r = make_raster(128, 128);
    let f = vec![
        Vec3(-UNIT / 2, UNIT / 2, UNIT),
        Vec3(-UNIT / 2, -UNIT / 2, UNIT),
        Vec3(UNIT / 2, -UNIT / 2, UNIT),
        Vec3(UNIT / 2, UNIT / 2, UNIT),
    ];
    let b = vec![
        Vec3(-UNIT / 2, UNIT / 2, 2 * UNIT),
        Vec3(-UNIT / 2, -UNIT / 2, 2 * UNIT),
        Vec3(UNIT / 2, -UNIT / 2, 2 * UNIT),
        Vec3(UNIT / 2, UNIT / 2, 2 * UNIT),
    ];
    // no rotation, no bob: exactly the plain outline
    let mut c1 = BufferCanvas::new(128, 128, BLACK);
    r.draw_animated_cube_wireframe(&mut c1, &f, &b, 0, UNIT, 0, Vec3(0, 0, 0));
    let mut c2 = BufferCanvas::new(128, 128, BLACK);
    r.draw_cube_wireframe(&mut c2, &f, &b);
    for sy in 0..128u32 {
        for sx in 0..128u32 {
            assert_eq!(c1.pixel(sx, sy), c2.pixel(sx, sy));
        }
    }
    // a quarter turn about the box's own axis leaves a different frame
    let mut c3 = BufferCanvas::new(128, 128, BLACK);
    r.draw_animated_cube_wireframe(&mut c3, &f, &b, UNIT, 0, 0, Vec3(0, 0, 3 * UNIT / 2));
    let mut differs = false;
    for sy in 0..128u32 {
        for sx in 0..128u32 {
            if c3.pixel(sx, sy) != c2.pixel(sx, sy) {
                differs = true;
            }
        }
    }
    assert!(differs);
}
