use cgmath::InnerSpace;
use cgmath::Matrix3;
use cgmath::SquareMatrix;
use cgmath::Vector3;
use worldtwist::rect_map;
use worldtwist::world_map;
use worldtwist::world_map_identity;
use worldtwist::Frac;
use worldtwist::RawImage;
use worldtwist::WorldSampler;

const FRAC_DEN: u64 = 1 << 32;

/// Turn a wrapped normalized float coordinate into the library's exact form.
fn to_frac(x: f32) -> Frac {
    let num = ((x as f64) * (FRAC_DEN as f64)) as u64;
    Frac::new(num.min(FRAC_DEN - 1), FRAC_DEN)
}

fn frac_to_radians(u: f32, v: f32) -> (f32, f32) {
    (u * std::f32::consts::TAU, (v - 0.5) * std::f32::consts::PI)
}

fn spherical_to_cartesian(theta: f32, phi: f32) -> Vector3<f32> {
    let z = phi.sin();
    let r = phi.cos();
    Vector3::new(-theta.cos() * r, -theta.sin() * r, z)
}

fn my_fmod(a: f32, b: f32) -> f32 {
    let rval = a % b;
    if a < 0.0 {
        rval + b
    } else {
        rval
    }
}

fn cartesian_to_lat_long(xyz: Vector3<f32>) -> (f32, f32) {
    let r = (xyz.x * xyz.x + xyz.y * xyz.y).sqrt();
    let phi = f32::atan2(xyz.z, r);
    let theta = f32::atan2(-xyz.y, -xyz.x);
    let v = phi / std::f32::consts::PI + 0.5;
    let u = theta / std::f32::consts::TAU;
    (my_fmod(u, 1.0), my_fmod(v, 1.0))
}

fn matrix_from_single_anchor(u: f32, v: f32) -> Matrix3<f32> {
    let (theta, phi) = frac_to_radians(u, v);
    let axis_x = spherical_to_cartesian(theta, phi);
    let axis_y = Vector3::new(0.0, 0.0, 1.0).cross(axis_x).normalize();
    let axis_z = axis_x.cross(axis_y).normalize();
    Matrix3::from_cols(axis_x, axis_y, axis_z)
}

fn untwist(matrix: &Matrix3<f32>, u: f32, v: f32) -> (f32, f32) {
    let (theta, phi) = frac_to_radians(u, v);
    let xyz = spherical_to_cartesian(theta, phi);
    cartesian_to_lat_long(matrix * xyz)
}

#[test]
fn rect_map_is_row_major() {
    let cells = rect_map(3, 2, |col, row| (col, row));
    assert_eq!(cells, vec![(0, 0), (1, 0), (2, 0), (0, 1), (1, 1), (2, 1)]);
}

#[test]
fn rect_map_empty_grid() {
    let cells = rect_map(0, 5, |col, row| (col, row));
    assert!(cells.is_empty());
}

/// With no anchors the mapping is the identity and a render at the source's
/// own size reproduces the source raster exactly, pixel-aligned.
#[test]
fn identity_render_reproduces_source_exactly() {
    let pixels = vec![
        255, 0, 0, // red
        0, 255, 0, // green
        0, 0, 255, // blue
        255, 255, 255, // white
    ];
    let sampler = WorldSampler::new(RawImage::new(2, 2, pixels));
    let out = world_map_identity(2, 2, &sampler);
    assert_eq!(out.width, 2);
    assert_eq!(out.height, 2);
    assert_eq!(
        out.rgba,
        vec![
            255, 0, 0, 255, //
            0, 255, 0, 255, //
            0, 0, 255, 255, //
            255, 255, 255, 255,
        ]
    );
}

/// A single anchor at the map center derives a rotation, but no rotation can
/// recolor a uniform source: the 4x4 render of a uniform gray source is
/// uniformly gray.
#[test]
fn center_anchor_render_of_gray_source_is_gray() {
    let gray = vec![100u8; 3 * 16];
    let sampler = WorldSampler::new(RawImage::new(4, 4, gray));
    let matrix = matrix_from_single_anchor(0.5, 0.5);
    let mut coords = Vec::new();
    for row in 0..4 {
        for col in 0..4 {
            let u0 = col as f32 / 4.0;
            let v0 = row as f32 / 4.0;
            let (u, v) = untwist(&matrix, u0, v0);
            coords.push((to_frac(u), to_frac(v)));
        }
    }
    let out = world_map(4, 4, &sampler, &coords);
    assert_eq!(out.width, 4);
    assert_eq!(out.height, 4);
    for pixel in 0..16 {
        assert_eq!(out.rgba[4 * pixel..4 * pixel + 4], [100, 100, 100, 255]);
    }
}

/// The center anchor's rotation is numerically the identity, so the same
/// render is also pixel-aligned with the source.
#[test]
fn center_anchor_matrix_is_identity_within_tolerance() {
    let matrix = matrix_from_single_anchor(0.5, 0.5);
    let identity = Matrix3::<f32>::identity();
    for c in 0..3 {
        for r in 0..3 {
            assert!((matrix[c][r] - identity[c][r]).abs() < 1e-5);
        }
    }
}

/// A coordinate at or beyond one in either direction renders the sentinel.
#[test]
fn out_of_unit_coordinate_renders_sentinel() {
    let sampler = WorldSampler::new(RawImage::new(2, 2, vec![9; 12]));
    let coords = vec![
        (Frac::new(0, 2), Frac::new(0, 2)),
        (Frac::new(3, 2), Frac::new(0, 2)),
        (Frac::new(0, 2), Frac::new(2, 2)),
        (Frac::new(1, 2), Frac::new(1, 2)),
    ];
    let out = world_map(2, 2, &sampler, &coords);
    assert_eq!(&out.rgba[0..4], &[9, 9, 9, 255]);
    assert_eq!(&out.rgba[4..8], &[255, 0, 255, 255]);
    assert_eq!(&out.rgba[8..12], &[255, 0, 255, 255]);
    assert_eq!(&out.rgba[12..16], &[9, 9, 9, 255]);
}
