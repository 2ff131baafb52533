//! The scene's layout: one thousand paired bright shapes — a circle on the
//! left, a five-sided polygon on the right — stacked fifty units apart
//! under a common parent that starts five hundred units below the origin.
//! The layout is computed here as plain data; spawning the meshes, the
//! camera and its post-processing is the host engine's affair.

use vstd::prelude::*;

verus! {

use crate::lens::Vec3Fx;

/// How many shape pairs the scene holds.
pub const PAIR_COUNT: usize = 1_000;

/// Vertical spacing between consecutive pairs, in millionths: fifty units.
pub const PAIR_SPACING: i64 = 50_000_000;

/// An HDR color, each channel in millionths (channels above one million
/// are deliberately overbright, for the bloom).
#[derive(Clone, Copy, Debug, PartialEq, Eq, Structural)]
pub struct ColorFx {
    pub red: i64,
    pub green: i64,
    pub blue: i64,
}

/// The geometry of one spawned shape.
#[derive(Clone, Copy, Debug, PartialEq, Eq, Structural)]
pub enum ShapeKind {
    /// A circle of the given radius, in millionths.
    Circle { radius: i64 },
    /// A regular polygon of the given circumradius, in millionths, and
    /// number of sides.
    RegularPolygon { radius: i64, sides: u32 },
}

/// One shape to spawn: what it is, where it sits, and its material color.
#[derive(Clone, Copy, Debug, PartialEq, Eq, Structural)]
pub struct ShapeSpec {
    pub kind: ShapeKind,
    pub pos: Vec3Fx,
    pub color: ColorFx,
}

/// The left shape of pair `i`: a magenta circle of radius ten, five
/// hundred units left of the axis, fifty units per pair up.
pub open spec fn circle_at(i: int) -> ShapeSpec {
    ShapeSpec {
        kind: ShapeKind::Circle { radius: 10_000_000 },
        pos: Vec3Fx { x: -500_000_000i64, y: (50_000_000 * i) as i64, z: 0 },
        color: ColorFx { red: 7_500_000, green: 0, blue: 7_500_000 },
    }
}

/// The right shape of pair `i`: a cyan five-sided polygon of circumradius
/// ten, five hundred units right of the axis, fifty units per pair up.
pub open spec fn polygon_at(i: int) -> ShapeSpec {
    ShapeSpec {
        kind: ShapeKind::RegularPolygon { radius: 10_000_000, sides: 5 },
        pos: Vec3Fx { x: 500_000_000i64, y: (50_000_000 * i) as i64, z: 0 },
        color: ColorFx { red: 6_250_000, green: 9_400_000, blue: 9_100_000 },
    }
}

/// Where the shapes' parent starts: five hundred units below the origin.
pub fn initial_parent_translation() -> (t: Vec3Fx)
    ensures
        t == (Vec3Fx { x: 0, y: -500_000_000i64, z: 0 }),
        t.wf(),
{
    Vec3Fx { x: 0, y: -500_000_000, z: 0 }
}

/// Every shape of the scene, pair by pair: entry `2i` is the circle of
/// pair `i` and entry `2i + 1` its polygon.
pub fn scene_shapes() -> (v: Vec<ShapeSpec>)
    ensures
        v@.len() == 2 * PAIR_COUNT,
        forall|i: int|
            0 <= i < PAIR_COUNT ==> v@[2 * i] == circle_at(i) && v@[2 * i + 1] == polygon_at(i),
{
    let mut v: Vec<ShapeSpec> = Vec::new();
    let mut i: usize = 0;
    while i < PAIR_COUNT
        invariant
            i <= PAIR_COUNT,
            v@.len() == 2 * i,
            forall|j: int|
                0 <= j < i ==> v@[2 * j] == circle_at(j) && v@[2 * j + 1] == polygon_at(j),
        decreases PAIR_COUNT - i,
    {
        let y: i64 = PAIR_SPACING * (i as i64);
        v.push(
            ShapeSpec {
                kind: ShapeKind::Circle { radius: 10_000_000 },
                pos: Vec3Fx { x: -500_000_000, y, z: 0 },
                color: ColorFx { red: 7_500_000, green: 0, blue: 7_500_000 },
            },
        );
        v.push(
            ShapeSpec {
                kind: ShapeKind::RegularPolygon { radius: 10_000_000, sides: 5 },
                pos: Vec3Fx { x: 500_000_000, y, z: 0 },
                color: ColorFx { red: 6_250_000, green: 9_400_000, blue: 9_100_000 },
            },
        );
        i += 1;
    }
    v
}

} // verus!
