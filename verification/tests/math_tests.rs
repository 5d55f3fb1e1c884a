use rasta::math::{Mat3, Mat4, Vec3, Vec4};
use rasta::UNIT;

#[test]
fn testing() {
    // -1.5, 0.0, 5.5 in fixed point.
    let point = Vec3(-98304, 0, 360448);
    let translate_to_origin = Mat4::translate(point.scale(-1));
    let translate_back = Mat4::translate(point);

    println!("ORIGIN {:?}", translate_to_origin);
    println!("BACK {:?}", translate_back);
    println!(
        "ROW {:?} COL {:?}",
        translate_to_origin.row(0),
        translate_back.col(0)
    );
}

#[test]
fn invert1() {
    let data = vec![
        // translation: inverted exactly
        (
            Mat4::translate(Vec3(UNIT, UNIT, UNIT)).invert(),
            Mat4::translate(Vec3(UNIT, UNIT, UNIT).scale(-1)),
        ),
        // scale by 420, 69 and 999: the reciprocals round down in fixed
        // point (65536/420 = 156.03.., 65536/69 = 949.7.., 65536/999 = 65.6..)
        (
            Mat4::scale(Vec3(420 * UNIT, 69 * UNIT, 999 * UNIT)).invert(),
            Mat4::scale(Vec3(156, 949, 65)),
        ),
    ];

    for (inversion, expected) in data {
        assert_eq!(inversion.unwrap(), expected)
    }
}

#[test]
fn invert2() {
    let translate = Mat4::translate(Vec3(UNIT, UNIT, UNIT));
    let inverse = translate.invert().unwrap();

    let expected = Mat4::translate(Vec3(UNIT, UNIT, UNIT).scale(-1));

    assert_eq!(inverse, expected)
}

#[test]
fn determinant_of_identity() {
    let u = UNIT as i128;
    assert_eq!(Mat4::identity().det(), u * u * u * u);
    assert_eq!(Mat4::scale(Vec3(0, UNIT, UNIT)).det(), 0);
    assert!(Mat4::scale(Vec3(0, UNIT, UNIT)).invert().is_none());
}

#[test]
fn identity_multiplication_is_neutral() {
    let m = Mat4::translate(Vec3(123, -456, 789));
    let r = m.mul(&Mat4::identity());
    assert_eq!(r, m);
    let l = Mat4::identity().mul(&m);
    assert_eq!(l, m);
}

#[test]
fn vector_products() {
    let a = Vec3(1, 2, 3);
    let b = Vec3(4, -5, 6);
    assert_eq!(a.dot(&b), 4 - 10 + 18);
    let c = a.cross(&b);
    assert_eq!(c, Vec3(2 * 6 - 3 * (-5), 3 * 4 - 1 * 6, 1 * (-5) - 2 * 4));
    assert_eq!(a.dot(&c), 0);
    assert_eq!(b.dot(&c), 0);
}

#[test]
fn magnitude_and_normalize() {
    assert_eq!(Vec3(3, 4, 0).magnitude(), 5);
    assert_eq!(Vec3(0, 0, 0).magnitude(), 0);
    let n = Vec3(0, 0, 5 * UNIT).normalize();
    assert_eq!(n, Vec3(0, 0, UNIT));
    // the magnitude rounds down, so components never exceed one
    let m = Vec3(3 * UNIT, 4 * UNIT, 0).normalize();
    assert!(m.0 <= UNIT && m.1 <= UNIT && m.2 <= UNIT);
}

#[test]
fn angle_sign_follows_dot() {
    let a = Vec3(UNIT, 0, 0);
    assert!(a.angle(&Vec3(UNIT, UNIT, 0)) > 0);
    assert!(a.angle(&Vec3(-UNIT, 1, 0)) < 0);
    assert_eq!(a.angle(&a), UNIT as i128);
}

#[test]
fn mat3_rows_and_cols() {
    let m = Mat3::new(1, 2, 3, 4, 5, 6, 7, 8, 9);
    assert_eq!(m.row(0), Vec3(1, 2, 3));
    assert_eq!(m.row(2), Vec3(7, 8, 9));
    assert_eq!(m.col(0), Vec3(1, 4, 7));
    assert_eq!(m.col(2), Vec3(3, 6, 9));
}

#[test]
fn mat4_rows_cols_and_vec4() {
    let m = Mat4::new(
        1, 2, 3, 4,
        5, 6, 7, 8,
        9, 10, 11, 12,
        13, 14, 15, 16,
    );
    assert_eq!(m.row(1), Vec4(5, 6, 7, 8));
    assert_eq!(m.col(3), Vec4(4, 8, 12, 16));
    let v = Vec4(1, 2, 3, 4);
    assert_eq!(v.dot(&v), 1 + 4 + 9 + 16);
    assert_eq!(v.dot3(&Vec3(1, 1, 1)), 6);
    assert_eq!(v.drop_fourth_component(), Vec3(1, 2, 3));
}

#[test]
fn perspective_matrix_entries() {
    // a symmetric frustum with near 1.0 and far 16.0
    let m = Mat4::perspective(-UNIT, UNIT, -UNIT, UNIT, UNIT, 16 * UNIT);
    // 2n/(r-l) with r-l = -2: -1.0
    assert_eq!(m.m00, -UNIT);
    assert_eq!(m.m32, UNIT);
    assert_eq!(m.m33, 0);
    // far/(far-near) = 16/15, rounded down
    assert_eq!(m.m22, (16 * UNIT as i128 * UNIT as i128 / (15 * UNIT as i128)) as i64);
}

#[test]
fn rotations_about_both_axes() {
    // a quarter turn about the vertical axis sends +x to +z
    let ry = Mat4::rotate_y_axis(UNIT, 0, Vec3(0, 0, 0));
    let p = ry.mul_vec4(&Vec4(UNIT, 0, 0, UNIT));
    assert_eq!((p.0, p.1, p.2, p.3), (0, 0, UNIT, UNIT));
    // a quarter turn about the depth axis sends +x to +y
    let rz = Mat4::rotate_z_axis(UNIT, 0, Vec3(0, 0, 0));
    let q = rz.mul_vec4(&Vec4(UNIT, 0, 0, UNIT));
    assert_eq!((q.0, q.1, q.2, q.3), (0, UNIT, 0, UNIT));
    // rotating about an axis through the point itself fixes the point
    let about = Mat4::rotate_y_axis(UNIT, 0, Vec3(7 * UNIT, 0, 9 * UNIT));
    let f = about.mul_vec4(&Vec4(7 * UNIT, 0, 9 * UNIT, UNIT));
    assert_eq!((f.0, f.1, f.2), (7 * UNIT, 0, 9 * UNIT));
}

#[test]
fn viewport_to_canvas_scales_to_pixels() {
    let m = Mat4::viewport_to_canvas(640, 360, UNIT, UNIT);
    assert_eq!(m.m00, 640 * UNIT);
    assert_eq!(m.m11, 360 * UNIT);
    assert_eq!(m.m22, UNIT);
    assert_eq!(m.m33, UNIT);
}
