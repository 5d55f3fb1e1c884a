use rasta::draw::Rasterizer;
use rasta::lerp::{Lerp, PiecewiseLerp};

#[test]
fn works() {
    let i0: i64 = 20;
    let i1: i64 = 420;
    let d0: i64 = -50;
    let d1: i64 = 69;

    let lerp = Rasterizer::interpolate(i0, d0, i1, d1);
    let lerp2 = Lerp::new(i0, d0, i1, d1);

    let mut y = i0;
    while y <= i1 {
        assert_eq!(lerp[(y - i0) as usize], lerp2.interpolate(y));
        y += 1;
    }
}

#[test]
fn affine_at_midpoint() {
    // Midpoint index and midpoint value are both whole, so interpolation
    // is exactly affine there.
    let l = Lerp::new(0, 10, 10, 20);
    assert_eq!(l.interpolate(5), 15);
    let l2 = Lerp::new(-6, -8, 4, 12);
    assert_eq!(l2.interpolate(-1), 2);
}

#[test]
fn degenerate_domain_is_constant() {
    let l = Lerp::new(7, 42, 7, 99);
    assert_eq!(l.interpolate(7), 42);
    assert_eq!(l.interpolate(-1000), 42);
    assert_eq!(l.interpolate(123456), 42);
}

#[test]
fn piecewise_matches_enumerated_table() {
    // The concatenated short-edge table and the two-segment interpolator
    // agree at every sampled index.
    let (y0, y1, y2) = (0i64, 5i64, 10i64);
    let (d0, d1, d2) = (-50i64, 69i64, 420i64);
    let (_x02, x012) = Rasterizer::triangle_interpolate(y0, y1, y2, d0, d1, d2);
    let piece = PiecewiseLerp::new(Lerp::new(y0, d0, y1, d1), Lerp::new(y1, d1, y2, d2));
    let mut i = y0;
    while i <= y2 {
        assert_eq!(x012[(i - y0) as usize], piece.interpolate(i));
        i += 1;
    }
}

#[test]
fn long_edge_table_matches_lerp() {
    let (y0, y1, y2) = (20i64, 120i64, 420i64);
    let (d0, d1, d2) = (-50i64, 0i64, 69i64);
    let (x02, _x012) = Rasterizer::triangle_interpolate(y0, y1, y2, d0, d1, d2);
    let long = Lerp::new(y0, d0, y2, d2);
    let mut i = y0;
    while i <= y2 {
        assert_eq!(x02[(i - y0) as usize], long.interpolate(i));
        i += 1;
    }
}

#[test]
fn mid_value_probes_the_middle() {
    let l = Lerp::new(0, 0, 10, 100);
    assert_eq!(l.mid_value(), 50);
    let p = PiecewiseLerp::new(Lerp::new(0, 0, 4, 40), Lerp::new(4, 40, 10, 100));
    assert_eq!(p.mid_value(), 50);
}

#[test]
fn reversed_domain_gives_empty_table() {
    let table = Rasterizer::interpolate(420, -50, 20, 69);
    assert!(table.is_empty());
}
