//! Lenses: pure interpolators with fixed endpoints. A lens maps an eased
//! progress ratio in millionths to the value of one animatable property —
//! the camera projection's scale, or a transform's translation.

use vstd::prelude::*;

verus! {

use crate::fixed::in_range;
use crate::fixed::lerp_fx;
use crate::fixed::lerp_spec;

/// A point or offset in the scene, each coordinate in millionths of a unit.
#[derive(Clone, Copy, Debug, PartialEq, Eq, Structural)]
pub struct Vec3Fx {
    pub x: i64,
    pub y: i64,
    pub z: i64,
}

impl Vec3Fx {
    /// Every coordinate is small enough to interpolate without overflow.
    pub open spec fn wf(self) -> bool {
        in_range(self.x as int) && in_range(self.y as int) && in_range(self.z as int)
    }
}

/// Interpolates the scale of an orthographic camera projection between two
/// fixed endpoints.
#[derive(Clone, Copy, Debug, PartialEq, Eq, Structural)]
pub struct TransformProjectionLens {
    pub start: i64,
    pub end: i64,
}

impl TransformProjectionLens {
    /// Both endpoints are in interpolation range.
    pub open spec fn wf(self) -> bool {
        in_range(self.start as int) && in_range(self.end as int)
    }

    /// The scale at eased ratio `ratio` millionths: exactly `start` at zero
    /// and exactly `end` at one million.
    pub fn lerp(&self, ratio: i64) -> (v: i64)
        requires
            self.wf(),
            0 <= ratio <= 1_000_000,
        ensures
            v == lerp_spec(self.start as int, self.end as int, ratio as int),
            ratio == 0 ==> v == self.start,
            ratio == 1_000_000 ==> v == self.end,
            in_range(v as int),
    {
        lerp_fx(self.start, self.end, ratio)
    }
}

/// Interpolates a transform's translation between two fixed endpoints,
/// one coordinate at a time.
#[derive(Clone, Copy, Debug, PartialEq, Eq, Structural)]
pub struct TransformPositionLens {
    pub start: Vec3Fx,
    pub end: Vec3Fx,
}

/// The translation a position lens yields at ratio `r` millionths.
pub open spec fn position_at(l: TransformPositionLens, r: int) -> Vec3Fx {
    Vec3Fx {
        x: lerp_spec(l.start.x as int, l.end.x as int, r) as i64,
        y: lerp_spec(l.start.y as int, l.end.y as int, r) as i64,
        z: lerp_spec(l.start.z as int, l.end.z as int, r) as i64,
    }
}

impl TransformPositionLens {
    /// Both endpoints are in interpolation range.
    pub open spec fn wf(self) -> bool {
        self.start.wf() && self.end.wf()
    }

    /// The translation at eased ratio `ratio` millionths: exactly `start`
    /// at zero and exactly `end` at one million.
    pub fn lerp(&self, ratio: i64) -> (v: Vec3Fx)
        requires
            self.wf(),
            0 <= ratio <= 1_000_000,
        ensures
            v == position_at(*self, ratio as int),
            ratio == 0 ==> v == self.start,
            ratio == 1_000_000 ==> v == self.end,
            v.wf(),
    {
        Vec3Fx {
            x: lerp_fx(self.start.x, self.end.x, ratio),
            y: lerp_fx(self.start.y, self.end.y, ratio),
            z: lerp_fx(self.start.z, self.end.z, ratio),
        }
    }
}

} // verus!
