//! Fixed-point geometry and color values shared by the pipeline.
//!
//! The renderer never computes with floating point: world scalars are carried
//! as fixed-point ticks (see [`crate::COORD_SCALE`]) and converted by the
//! backend interpreter at the drawing boundary.

use vstd::prelude::*;

verus! {

/// Outline inflation per axis: one hundredth of a world unit.
pub const OUTLINE_INFLATION: i32 = 10;

/// A 3D point or extent in fixed-point world ticks.
#[derive(Clone, Copy, PartialEq, Eq, Structural, Debug)]
pub struct Vec3 {
    pub x: i32,
    pub y: i32,
    pub z: i32,
}

/// A 2D ground-plane point in fixed-point world ticks.
#[derive(Clone, Copy, PartialEq, Eq, Structural, Debug)]
pub struct Vec2 {
    pub x: i32,
    pub y: i32,
}

/// An RGBA color with 8-bit channels.
#[derive(Clone, Copy, PartialEq, Eq, Structural, Debug)]
pub struct Rgba {
    pub r: u8,
    pub g: u8,
    pub b: u8,
    pub a: u8,
}

/// The fixed outline color: opaque black.
pub open spec fn spec_outline_color() -> Rgba {
    Rgba { r: 0, g: 0, b: 0, a: 255 }
}

/// Returns the fixed outline color used for wireframe outlines.
pub fn outline_color() -> (c: Rgba)
    ensures
        c == spec_outline_color(),
{
    Rgba { r: 0, g: 0, b: 0, a: 255 }
}

/// An extent can be inflated for an outline without overflowing a tick.
pub open spec fn valid_extent(v: Vec3) -> bool {
    &&& v.x <= i32::MAX - OUTLINE_INFLATION
    &&& v.y <= i32::MAX - OUTLINE_INFLATION
    &&& v.z <= i32::MAX - OUTLINE_INFLATION
}

/// The outline extent: the drawable's extent grown by the fixed inflation on
/// each axis.
pub open spec fn spec_inflate(v: Vec3) -> Vec3 {
    Vec3 {
        x: (v.x + OUTLINE_INFLATION) as i32,
        y: (v.y + OUTLINE_INFLATION) as i32,
        z: (v.z + OUTLINE_INFLATION) as i32,
    }
}

/// Grows an extent by the fixed outline inflation on each axis.
pub fn inflate(v: &Vec3) -> (r: Vec3)
    requires
        valid_extent(*v),
    ensures
        r == spec_inflate(*v),
{
    Vec3 { x: v.x + OUTLINE_INFLATION, y: v.y + OUTLINE_INFLATION, z: v.z + OUTLINE_INFLATION }
}

} // verus!
