use worldtwist::Frac;
use worldtwist::RawImage;
use worldtwist::WorldSampler;

/// A 2x2 source raster holding red, green / blue, white.
fn checker_sampler() -> WorldSampler {
    let pixels = vec![
        255, 0, 0, // (0, 0) red
        0, 255, 0, // (1, 0) green
        0, 0, 255, // (0, 1) blue
        255, 255, 255, // (1, 1) white
    ];
    WorldSampler::new(RawImage::new(2, 2, pixels))
}

#[test]
fn raw_image_new_keeps_buffer_and_dimensions() {
    let img = RawImage::new(2, 1, vec![1, 2, 3, 4, 5, 6]);
    assert_eq!(img.width, 2);
    assert_eq!(img.height, 1);
    assert_eq!(img.rgb_pixels, vec![1, 2, 3, 4, 5, 6]);
}

#[test]
fn rgba_at_in_bounds_has_full_alpha() {
    let img = RawImage::new(2, 2, vec![10, 11, 12, 20, 21, 22, 30, 31, 32, 40, 41, 42]);
    assert_eq!(img.rgba_at(0, 0), [10, 11, 12, 255]);
    assert_eq!(img.rgba_at(1, 0), [20, 21, 22, 255]);
    assert_eq!(img.rgba_at(0, 1), [30, 31, 32, 255]);
    assert_eq!(img.rgba_at(1, 1), [40, 41, 42, 255]);
}

#[test]
fn rgba_at_out_of_bounds_is_sentinel() {
    let img = RawImage::new(2, 2, vec![0; 12]);
    assert_eq!(img.rgba_at(2, 0), [255, 0, 255, 255]);
    assert_eq!(img.rgba_at(0, 2), [255, 0, 255, 255]);
    assert_eq!(img.rgba_at(1000, 1000), [255, 0, 255, 255]);
}

#[test]
fn sample_in_unit_returns_source_pixel_with_alpha() {
    let s = checker_sampler();
    assert_eq!(s.get(Frac::new(0, 4), Frac::new(0, 4)), [255, 0, 0, 255]);
    assert_eq!(s.get(Frac::new(2, 4), Frac::new(1, 4)), [0, 255, 0, 255]);
    assert_eq!(s.get(Frac::new(1, 4), Frac::new(3, 4)), [0, 0, 255, 255]);
    assert_eq!(s.get(Frac::new(3, 4), Frac::new(2, 4)), [255, 255, 255, 255]);
}

#[test]
fn sample_u_at_or_beyond_one_is_sentinel() {
    let s = checker_sampler();
    assert_eq!(s.get(Frac::new(4, 4), Frac::new(0, 4)), [255, 0, 255, 255]);
    assert_eq!(s.get(Frac::new(9, 4), Frac::new(1, 4)), [255, 0, 255, 255]);
}

#[test]
fn sample_v_at_or_beyond_one_is_sentinel() {
    let s = checker_sampler();
    assert_eq!(s.get(Frac::new(0, 4), Frac::new(4, 4)), [255, 0, 255, 255]);
    assert_eq!(s.get(Frac::new(1, 4), Frac::new(7, 4)), [255, 0, 255, 255]);
}

#[test]
fn frac_scale_truncates() {
    let f = Frac::new(1, 3);
    assert!(f.in_unit());
    assert_eq!(f.scale_trunc(6), 2);
    assert_eq!(f.scale_trunc(4), 1);
    assert!(!Frac::new(5, 3).in_unit());
}
