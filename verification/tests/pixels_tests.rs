//! The colour transform and planar conversion, checked on concrete pixels.

use soundcloud_embedder::pixels::clamp_byte;
use soundcloud_embedder::pixels::chroma_u;
use soundcloud_embedder::pixels::chroma_v;
use soundcloud_embedder::pixels::luma;
use soundcloud_embedder::pixels::planar_from_rgb;
use soundcloud_embedder::pixels::rgb_to_i420;
use soundcloud_embedder::pixels::Raster;

fn direct_luma(r: u8, g: u8, b: u8) -> u8 {
    let v = ((66 * r as i32 + 129 * g as i32 + 25 * b as i32 + 128) >> 8) + 16;
    v.max(0).min(255) as u8
}

fn direct_chroma_u(r: u8, g: u8, b: u8) -> u8 {
    let v = ((-38 * r as i32 - 74 * g as i32 + 112 * b as i32 + 128) >> 8) + 128;
    v.max(0).min(255) as u8
}

fn direct_chroma_v(r: u8, g: u8, b: u8) -> u8 {
    let v = ((112 * r as i32 - 94 * g as i32 - 18 * b as i32 + 128) >> 8) + 128;
    v.max(0).min(255) as u8
}

fn solid_raster(w: u32, h: u32, rgb: (u8, u8, u8)) -> Raster {
    let mut data = Vec::new();
    for _ in 0..(w * h) {
        data.push(rgb.0);
        data.push(rgb.1);
        data.push(rgb.2);
    }
    Raster { width: w, height: h, data }
}

#[test]
fn clamp_saturates() {
    assert_eq!(clamp_byte(-5), 0);
    assert_eq!(clamp_byte(0), 0);
    assert_eq!(clamp_byte(128), 128);
    assert_eq!(clamp_byte(255), 255);
    assert_eq!(clamp_byte(300), 255);
}

#[test]
fn transform_matches_direct_formula() {
    for &(r, g, b) in
        &[(0u8, 0u8, 0u8), (255, 255, 255), (10, 20, 200), (255, 255, 0), (200, 0, 0), (1, 2, 3)]
    {
        assert_eq!(luma(r, g, b), direct_luma(r, g, b));
        assert_eq!(chroma_u(r, g, b), direct_chroma_u(r, g, b));
        assert_eq!(chroma_v(r, g, b), direct_chroma_v(r, g, b));
    }
}

#[test]
fn solid_four_by_four_planes() {
    let rgb = (10u8, 20u8, 200u8);
    let img = solid_raster(4, 4, rgb);
    let frame = planar_from_rgb(&img);
    assert_eq!(frame.width, 4);
    assert_eq!(frame.height, 4);
    assert_eq!(frame.luma.len(), 16);
    assert_eq!(frame.chroma_u.len(), 4);
    assert_eq!(frame.chroma_v.len(), 4);
    let y = direct_luma(rgb.0, rgb.1, rgb.2);
    let u = direct_chroma_u(rgb.0, rgb.1, rgb.2);
    let v = direct_chroma_v(rgb.0, rgb.1, rgb.2);
    assert!(frame.luma.iter().all(|&s| s == y));
    assert!(frame.chroma_u.iter().all(|&s| s == u));
    assert!(frame.chroma_v.iter().all(|&s| s == v));
}

#[test]
fn odd_dimensions_round_chroma_up() {
    let img = solid_raster(5, 3, (1, 2, 3));
    let frame = planar_from_rgb(&img);
    assert_eq!(frame.luma.len(), 15);
    assert_eq!(frame.chroma_u.len(), 3 * 2);
    assert_eq!(frame.chroma_v.len(), 3 * 2);
}

#[test]
fn i420_layout_is_planes_in_order() {
    let img = solid_raster(4, 2, (40, 80, 120));
    let frame = planar_from_rgb(&img);
    let buf = rgb_to_i420(&img);
    assert_eq!(buf.len(), 8 + 2 + 2);
    assert_eq!(&buf[0..8], frame.luma.as_slice());
    assert_eq!(&buf[8..10], frame.chroma_u.as_slice());
    assert_eq!(&buf[10..12], frame.chroma_v.as_slice());
}

#[test]
fn transform_is_deterministic() {
    let mut data = Vec::new();
    for i in 0..48u32 {
        data.push((i * 37 % 256) as u8);
    }
    let a = Raster { width: 4, height: 4, data: data.clone() };
    let b = Raster { width: 4, height: 4, data };
    assert_eq!(rgb_to_i420(&a), rgb_to_i420(&b));
}

#[test]
fn gradient_luma_per_pixel() {
    let mut data = Vec::new();
    for i in 0..6u32 {
        data.push((i * 40) as u8);
        data.push((i * 30) as u8);
        data.push((i * 20) as u8);
    }
    let img = Raster { width: 3, height: 2, data: data.clone() };
    let frame = planar_from_rgb(&img);
    for yy in 0..2usize {
        for xx in 0..3usize {
            let p = 3 * (yy * 3 + xx);
            let expected = direct_luma(data[p], data[p + 1], data[p + 2]);
            assert_eq!(frame.luma[yy * 3 + xx], expected);
        }
    }
    // chroma samples come from every second pixel in both axes
    let expected_u = direct_chroma_u(data[0], data[1], data[2]);
    let p = 3 * 2;
    let expected_u2 = direct_chroma_u(data[p], data[p + 1], data[p + 2]);
    assert_eq!(frame.chroma_u[0], expected_u);
    assert_eq!(frame.chroma_u[1], expected_u2);
}
