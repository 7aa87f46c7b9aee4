//! Small capability traits shared across the engine, with the engine's own
//! implementations.
//!
//! Each trait pairs its executable methods with spec functions, so an
//! implementation states exactly what its methods return.

use crate::fx::{SurfaceConfig, MAX_SURFACE_DIM};
use crate::math::{scale_trunc_i64, spec_scale_trunc, Vec3i};
use vstd::prelude::*;

verus! {

/// Micro-units in the half circle: the scale factor between micro-degrees
/// and micro-radians, with pi rounded to micro precision.
pub const PI_MICRO: i64 = 3_141_593;

/// Micro-degrees in the half circle.
pub const HALF_TURN_MICRO_DEG: i64 = 180_000_000;

/// Largest angle magnitude, in micro-units, the conversions accept.
pub const ANGLE_LIMIT: i64 = 50_000_000_000;

/// A color built from its red, green and blue channels.
pub trait FromRGB: Sized {
    /// The color the channels denote.
    spec fn spec_from_rgb(r: u8, g: u8, b: u8) -> Self;

    /// Builds the color, fully opaque.
    fn from_rgb(r: u8, g: u8, b: u8) -> (res: Self)
        ensures
            res == Self::spec_from_rgb(r, g, b),
    ;
}

/// A color built from its red, green, blue and alpha channels.
pub trait FromRGBA: Sized {
    /// The color the channels denote.
    spec fn spec_from_rgba(r: u8, g: u8, b: u8, a: u8) -> Self;

    /// Builds the color.
    fn from_rgba(r: u8, g: u8, b: u8, a: u8) -> (res: Self)
        ensures
            res == Self::spec_from_rgba(r, g, b, a),
    ;
}

/// An eight-bit-per-channel color.
#[derive(Clone, Copy, Debug, PartialEq, Eq, Structural)]
pub struct Rgba {
    pub r: u8,
    pub g: u8,
    pub b: u8,
    pub a: u8,
}

impl FromRGB for Rgba {
    open spec fn spec_from_rgb(r: u8, g: u8, b: u8) -> Rgba {
        Rgba { r, g, b, a: 255 }
    }

    fn from_rgb(r: u8, g: u8, b: u8) -> (res: Rgba) {
        Rgba { r, g, b, a: 255 }
    }
}

impl FromRGBA for Rgba {
    open spec fn spec_from_rgba(r: u8, g: u8, b: u8, a: u8) -> Rgba {
        Rgba { r, g, b, a }
    }

    fn from_rgba(r: u8, g: u8, b: u8, a: u8) -> (res: Rgba) {
        Rgba { r, g, b, a }
    }
}

/// Something whose contents determine a GPU buffer's byte size: `None`
/// when the contents admit no binding (empty, or too large to size).
pub trait CalculateBufferSize {
    /// The byte size a binding of these contents demands.
    spec fn spec_buffer_size(&self) -> Option<u64>;

    /// Computes the byte size.
    fn cal_buffer_size(&self) -> (r: Option<u64>)
        ensures
            r == self.spec_buffer_size(),
    ;
}

impl CalculateBufferSize for Vec<u32> {
    open spec fn spec_buffer_size(&self) -> Option<u64> {
        if self@.len() == 0 || self@.len() > 0x1fff_ffff_ffff_ffff {
            None
        } else {
            Some((self@.len() * 4) as u64)
        }
    }

    fn cal_buffer_size(&self) -> (r: Option<u64>) {
        if self.len() == 0 {
            None
        } else if self.len() as u64 > 0x1fff_ffff_ffff_ffffu64 {
            None
        } else {
            Some((self.len() as u64) * 4)
        }
    }
}

impl CalculateBufferSize for Vec<i64> {
    open spec fn spec_buffer_size(&self) -> Option<u64> {
        if self@.len() == 0 || self@.len() > 0x0fff_ffff_ffff_ffff {
            None
        } else {
            Some((self@.len() * 8) as u64)
        }
    }

    fn cal_buffer_size(&self) -> (r: Option<u64>) {
        if self.len() == 0 {
            None
        } else if self.len() as u64 > 0x0fff_ffff_ffff_ffffu64 {
            None
        } else {
            Some((self.len() as u64) * 8)
        }
    }
}

/// A value convertible between degree- and radian-based angle units.
pub trait HandleAngles: Sized {
    /// Magnitudes small enough for exact fixed-point conversion.
    spec fn angle_wf(&self) -> bool;

    /// The value reinterpreted from micro-radians to micro-degrees.
    spec fn spec_to_degrees(&self) -> Self;

    /// The value reinterpreted from micro-degrees to micro-radians.
    spec fn spec_to_radians(&self) -> Self;

    /// Converts micro-radians to micro-degrees.
    fn to_degrees(&self) -> (r: Self)
        requires
            self.angle_wf(),
        ensures
            r == self.spec_to_degrees(),
    ;

    /// Converts micro-degrees to micro-radians.
    fn to_radians(&self) -> (r: Self)
        requires
            self.angle_wf(),
        ensures
            r == self.spec_to_radians(),
    ;
}

impl HandleAngles for Vec3i {
    open spec fn angle_wf(&self) -> bool {
        &&& -ANGLE_LIMIT <= self.x <= ANGLE_LIMIT
        &&& -ANGLE_LIMIT <= self.y <= ANGLE_LIMIT
        &&& -ANGLE_LIMIT <= self.z <= ANGLE_LIMIT
    }

    open spec fn spec_to_degrees(&self) -> Vec3i {
        Vec3i {
            x: spec_scale_trunc(self.x as int, HALF_TURN_MICRO_DEG as int, PI_MICRO as int) as i64,
            y: spec_scale_trunc(self.y as int, HALF_TURN_MICRO_DEG as int, PI_MICRO as int) as i64,
            z: spec_scale_trunc(self.z as int, HALF_TURN_MICRO_DEG as int, PI_MICRO as int) as i64,
        }
    }

    open spec fn spec_to_radians(&self) -> Vec3i {
        Vec3i {
            x: spec_scale_trunc(self.x as int, PI_MICRO as int, HALF_TURN_MICRO_DEG as int) as i64,
            y: spec_scale_trunc(self.y as int, PI_MICRO as int, HALF_TURN_MICRO_DEG as int) as i64,
            z: spec_scale_trunc(self.z as int, PI_MICRO as int, HALF_TURN_MICRO_DEG as int) as i64,
        }
    }

    fn to_degrees(&self) -> (r: Vec3i) {
        Vec3i {
            x: scale_trunc_i64(self.x, HALF_TURN_MICRO_DEG, PI_MICRO),
            y: scale_trunc_i64(self.y, HALF_TURN_MICRO_DEG, PI_MICRO),
            z: scale_trunc_i64(self.z, HALF_TURN_MICRO_DEG, PI_MICRO),
        }
    }

    fn to_radians(&self) -> (r: Vec3i) {
        Vec3i {
            x: scale_trunc_i64(self.x, PI_MICRO, HALF_TURN_MICRO_DEG),
            y: scale_trunc_i64(self.y, PI_MICRO, HALF_TURN_MICRO_DEG),
            z: scale_trunc_i64(self.z, PI_MICRO, HALF_TURN_MICRO_DEG),
        }
    }
}

/// A surface that derives the post-process chain's target dimensions and
/// sampling margin.
pub trait FxDimensions {
    /// Dimensions small enough for the derived sizes to stay in range.
    spec fn fx_wf(&self) -> bool;

    /// The margin, in texels.
    spec fn fx_offset_spec(&self) -> int;

    /// The derived target width.
    spec fn fx_width_spec(&self) -> int;

    /// The derived target height.
    spec fn fx_height_spec(&self) -> int;

    /// The chain's target dimensions: the surface plus the margin on every
    /// side.
    fn fx_dimensions(&self) -> (r: [u32; 2])
        requires
            self.fx_wf(),
        ensures
            r@.len() == 2,
            r@[0] == self.fx_width_spec(),
            r@[1] == self.fx_height_spec(),
    ;

    /// The margin blur kernels may sample into past the visible rect.
    fn fx_offset(&self) -> (r: u32)
        requires
            self.fx_wf(),
        ensures
            r == self.fx_offset_spec(),
    ;
}

impl FxDimensions for SurfaceConfig {
    open spec fn fx_wf(&self) -> bool {
        self.width <= MAX_SURFACE_DIM && self.height <= MAX_SURFACE_DIM
    }

    open spec fn fx_offset_spec(&self) -> int {
        crate::fx::spec_fx_offset(*self)
    }

    open spec fn fx_width_spec(&self) -> int {
        crate::fx::spec_fx_width(*self)
    }

    open spec fn fx_height_spec(&self) -> int {
        crate::fx::spec_fx_height(*self)
    }

    fn fx_dimensions(&self) -> (r: [u32; 2]) {
        let offset = self.fx_offset();
        let expand = offset * 2;
        let r = [self.width + expand, self.height + expand];
        proof {
            assert(r@[0] == self.fx_width_spec());
            assert(r@[1] == self.fx_height_spec());
        }
        r
    }

    fn fx_offset(&self) -> (r: u32) {
        let off = self.width / 60;
        if off > 32 {
            off
        } else {
            32
        }
    }
}

} // verus!
