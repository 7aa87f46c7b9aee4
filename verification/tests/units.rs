//! Fixed-point math, capability traits, and the margin uniform bytes.

use sparticles::fx::{OffsetUniform, SurfaceConfig};
use sparticles::math::{lerp_i64, lerp_vec3, saturating_inc, Vec3i};
use sparticles::traits::{
    CalculateBufferSize, FromRGB, FromRGBA, FxDimensions, HandleAngles, Rgba,
};

#[test]
fn lerp_is_exact_at_the_endpoints_and_midpoint() {
    assert_eq!(lerp_i64(0, 1_000_000, 0), 0);
    assert_eq!(lerp_i64(0, 1_000_000, 500_000), 500_000);
    assert_eq!(lerp_i64(0, 1_000_000, 1_000_000), 1_000_000);
    assert_eq!(lerp_i64(1_000_000, 0, 250_000), 750_000);
    assert_eq!(lerp_i64(-500_000, 500_000, 500_000), 0);
}

#[test]
fn lerp_vec3_interpolates_componentwise() {
    let a = Vec3i::new(0, -100, 200);
    let b = Vec3i::new(1_000, 100, 200);
    let r = lerp_vec3(&a, &b, 500_000);
    assert_eq!(r, Vec3i::new(500, 0, 200));
}

#[test]
fn counters_saturate_at_the_ceiling() {
    assert_eq!(saturating_inc(0), 1);
    assert_eq!(saturating_inc(u64::MAX - 1), u64::MAX);
    assert_eq!(saturating_inc(u64::MAX), u64::MAX);
}

#[test]
fn rgb_colors_are_opaque() {
    let c = Rgba::from_rgb(10, 20, 30);
    assert_eq!(c, Rgba { r: 10, g: 20, b: 30, a: 255 });
    let d = Rgba::from_rgba(1, 2, 3, 4);
    assert_eq!(d, Rgba { r: 1, g: 2, b: 3, a: 4 });
}

#[test]
fn buffer_sizes_follow_the_element_width() {
    let v: Vec<u32> = vec![1, 2, 3];
    assert_eq!(v.cal_buffer_size(), Some(12));
    let w: Vec<i64> = vec![1, 2, 3, 4];
    assert_eq!(w.cal_buffer_size(), Some(32));
    let empty: Vec<u32> = Vec::new();
    assert_eq!(empty.cal_buffer_size(), None);
}

#[test]
fn angle_conversions_are_exact_fixed_point() {
    // Pi micro-radians is exactly a half turn.
    let v = Vec3i::new(3_141_593, 0, -3_141_593);
    let d = v.to_degrees();
    assert_eq!(d, Vec3i::new(180_000_000, 0, -180_000_000));
    // And back.
    let r = d.to_radians();
    assert_eq!(r, Vec3i::new(3_141_593, 0, -3_141_593));
}

#[test]
fn fx_dimensions_extend_by_the_margin() {
    let c = SurfaceConfig { width: 800, height: 600 };
    assert_eq!(c.fx_offset(), 32);
    let dims = c.fx_dimensions();
    assert_eq!(dims, [864, 664]);
    // A wide surface derives its margin from its width.
    let wide = SurfaceConfig { width: 6_000, height: 600 };
    assert_eq!(wide.fx_offset(), 100);
    assert_eq!(wide.fx_dimensions(), [6_200, 800]);
}

#[test]
fn offset_uniform_serializes_little_endian() {
    let c = SurfaceConfig { width: 800, height: 600 };
    let u = OffsetUniform::new(&c);
    assert_eq!(u.offset, 32);
    assert_eq!(u.buffer_content(), vec![32u8, 0, 0, 0]);
    let wide = OffsetUniform { offset: 0x0102_0304 };
    assert_eq!(wide.buffer_content(), vec![4u8, 3, 2, 1]);
}
