use std::io::Cursor;

use rasta::rasterize::Color;
use rasta::texture::Texture;
use rasta::UNIT;

fn encode_png(w: u32, h: u32, rgb: Vec<u8>) -> Vec<u8> {
    let img = image::RgbImage::from_raw(w, h, rgb).unwrap();
    let mut bytes: Vec<u8> = Vec::new();
    image::DynamicImage::ImageRgb8(img)
        .write_to(&mut Cursor::new(&mut bytes), image::ImageOutputFormat::Png)
        .unwrap();
    bytes
}

#[test]
fn decodes_encoded_pixels() {
    let rgb = vec![
        255, 0, 0, /* */ 0, 255, 0, //
        0, 0, 255, /* */ 10, 20, 30, //
    ];
    let bytes = encode_png(2, 2, rgb);
    let tex = Texture::from_bytes(&bytes).unwrap();
    assert_eq!((tex.w, tex.h), (2, 2));
    assert_eq!(tex.pixels.len(), 4);
    assert_eq!(tex.pixels[0], Color(255, 0, 0));
    assert_eq!(tex.pixels[1], Color(0, 255, 0));
    assert_eq!(tex.pixels[2], Color(0, 0, 255));
    assert_eq!(tex.pixels[3], Color(10, 20, 30));
}

#[test]
fn garbage_bytes_are_rejected() {
    assert!(Texture::from_bytes(&[1, 2, 3, 4, 5]).is_err());
    assert!(Texture::from_bytes(&[]).is_err());
}

#[test]
fn texel_sampling_clamps_and_picks_nearest() {
    let rgb = vec![
        255, 0, 0, /* */ 0, 255, 0, //
        0, 0, 255, /* */ 10, 20, 30, //
    ];
    let bytes = encode_png(2, 2, rgb);
    let tex = Texture::from_bytes(&bytes).unwrap();
    // the corners of the unit square, clamped even far outside it
    assert_eq!(tex.texel(0, 0), Color(255, 0, 0));
    assert_eq!(tex.texel(UNIT, 0), Color(0, 255, 0));
    assert_eq!(tex.texel(0, UNIT), Color(0, 0, 255));
    assert_eq!(tex.texel(UNIT, UNIT), Color(10, 20, 30));
    assert_eq!(tex.texel(-5 * UNIT, -5 * UNIT), Color(255, 0, 0));
    assert_eq!(tex.texel(9 * UNIT, 9 * UNIT), Color(10, 20, 30));
}
