//! Geometric primitives, held in integer coordinates

use vstd::prelude::*;

verus! {

/// A point in the 2-dimensional coordinate space of a surface
#[derive(Clone, Copy, Debug, PartialEq, Eq, Hash, Structural)]
pub struct Point2 {
    pub u: i64,
    pub v: i64,
}

/// A point in global 3-dimensional space
#[derive(Clone, Copy, Debug, PartialEq, Eq, Hash, Structural)]
pub struct Point3 {
    pub x: i64,
    pub y: i64,
    pub z: i64,
}

/// A displacement in global 3-dimensional space
#[derive(Clone, Copy, Debug, PartialEq, Eq, Hash, Structural)]
pub struct Vector3 {
    pub x: i64,
    pub y: i64,
    pub z: i64,
}

/// Whether `p + v` can be represented
pub open spec fn translation_fits(p: Point3, v: Vector3) -> bool {
    i64::MIN <= p.x + v.x <= i64::MAX && i64::MIN <= p.y + v.y <= i64::MAX && i64::MIN <= p.z
        + v.z <= i64::MAX
}

/// `p` moved by `v`
pub open spec fn translated(p: Point3, v: Vector3) -> Point3 {
    Point3 { x: (p.x + v.x) as i64, y: (p.y + v.y) as i64, z: (p.z + v.z) as i64 }
}

impl Point3 {
    /// Move the point along a vector
    pub fn translate(&self, v: Vector3) -> (r: Point3)
        requires
            translation_fits(*self, v),
        ensures
            r == translated(*self, v),
    {
        Point3 { x: self.x + v.x, y: self.y + v.y, z: self.z + v.z }
    }
}

/// The two parameter values that bound an edge on its curve
#[derive(Clone, Copy, Debug, PartialEq, Eq, Hash, Structural)]
pub struct CurveBoundary {
    pub start: i64,
    pub end: i64,
}

/// A range of curve parameters that an approximation covers
#[derive(Clone, Copy, Debug, PartialEq, Eq, Hash, Structural)]
pub struct RangeOnPath {
    pub start: i64,
    pub end: i64,
}

/// A path in the 2-dimensional coordinate space of a surface
#[derive(Clone, Copy, Debug, PartialEq, Eq, Hash, Structural)]
pub enum SurfacePath {
    /// The line through `origin` (parameter 0) and `origin + direction`
    /// (parameter 1)
    Line { origin: Point2, direction: Point2 },
    /// A circle, parametrized by angle
    Circle { center: Point2, radius: u64 },
}

/// A path in global 3-dimensional space, as the `u` axis of a surface
#[derive(Clone, Copy, Debug, PartialEq, Eq, Hash, Structural)]
pub enum GlobalPath {
    Line,
    Circle { radius: u64 },
}

/// A surface: its `u` axis follows a global path, its `v` axis a vector
#[derive(Clone, Copy, Debug, PartialEq, Eq, Hash, Structural)]
pub struct Surface {
    pub u: GlobalPath,
    pub v: Vector3,
}

/// A color, as red, green, blue and alpha channels
#[derive(Clone, Copy, Debug, PartialEq, Eq, Hash, Structural)]
pub struct Color {
    pub r: u8,
    pub g: u8,
    pub b: u8,
    pub a: u8,
}

} // verus!
