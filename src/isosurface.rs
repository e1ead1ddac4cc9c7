//! Edges between the points of an axis-aligned grid

use vstd::prelude::*;

verus! {

/// The position of a point in a grid
#[derive(Clone, Copy, Debug, PartialEq, Eq, Hash, Structural)]
pub struct GridIndex {
    pub x: usize,
    pub y: usize,
    pub z: usize,
}

impl GridIndex {
    /// Create an index from its three coordinates
    pub fn new(x: usize, y: usize, z: usize) -> (r: GridIndex)
        ensures
            r == (GridIndex { x, y, z }),
    {
        GridIndex { x, y, z }
    }
}

/// An edge from `a` to `b`
#[derive(Clone, Copy, Debug, PartialEq, Eq)]
pub struct Edge<T> {
    pub a: T,
    pub b: T,
}

impl<T> Edge<T> {
    /// The same edge, the other way round
    pub fn reverse(self) -> (r: Self)
        ensures
            r.a == self.b,
            r.b == self.a,
    {
        Edge { a: self.b, b: self.a }
    }
}

/// One of the three axes of the grid
#[derive(Clone, Copy, Debug, PartialEq, Eq, Hash, Structural)]
pub enum Axis {
    X,
    Y,
    Z,
}

/// Which way along an axis
#[derive(Clone, Copy, Debug, PartialEq, Eq, Hash, Structural)]
pub enum Sign {
    Neg,
    Pos,
}

/// The direction of an edge between neighboring grid points
#[derive(Clone, Copy, Debug, PartialEq, Eq, Hash, Structural)]
pub struct Direction {
    pub axis: Axis,
    pub sign: Sign,
}

/// The direction of a step of one along an axis, if `(dx, dy, dz)` is one
pub open spec fn direction_of_step(dx: int, dy: int, dz: int) -> Option<Direction> {
    if dx == 0 && dy == 0 && dz == -1 {
        Some(Direction { axis: Axis::Z, sign: Sign::Neg })
    } else if dx == 0 && dy == 0 && dz == 1 {
        Some(Direction { axis: Axis::Z, sign: Sign::Pos })
    } else if dx == 0 && dy == -1 && dz == 0 {
        Some(Direction { axis: Axis::Y, sign: Sign::Neg })
    } else if dx == 0 && dy == 1 && dz == 0 {
        Some(Direction { axis: Axis::Y, sign: Sign::Pos })
    } else if dx == -1 && dy == 0 && dz == 0 {
        Some(Direction { axis: Axis::X, sign: Sign::Neg })
    } else if dx == 1 && dy == 0 && dz == 0 {
        Some(Direction { axis: Axis::X, sign: Sign::Pos })
    } else {
        None
    }
}

/// The direction of the edge from `a` to `b`, if they are neighbors along an
/// axis
pub open spec fn edge_direction(a: GridIndex, b: GridIndex) -> Option<Direction> {
    direction_of_step(b.x - a.x, b.y - a.y, b.z - a.z)
}

/// `b - a`, as -1, 0 or 1, where it is one of them
fn unit_delta(a: usize, b: usize) -> (r: Option<i8>)
    ensures
        r matches Some(d) ==> d == b - a && -1 <= d <= 1,
        r is None ==> !(-1 <= b - a <= 1),
{
    if a == b {
        Some(0)
    } else if a < b && b - a == 1 {
        Some(1)
    } else if b < a && a - b == 1 {
        Some(-1)
    } else {
        None
    }
}

impl Edge<GridIndex> {
    /// The direction of the edge, which must run between neighbors along an
    /// axis
    pub fn direction(&self) -> (r: Direction)
        requires
            edge_direction(self.a, self.b) is Some,
        ensures
            Some(r) == edge_direction(self.a, self.b),
    {
        let dx = unit_delta(self.a.x, self.b.x).unwrap();
        let dy = unit_delta(self.a.y, self.b.y).unwrap();
        let dz = unit_delta(self.a.z, self.b.z).unwrap();
        let (axis, sign) = if dz == -1 {
            (Axis::Z, Sign::Neg)
        } else if dz == 1 {
            (Axis::Z, Sign::Pos)
        } else if dy == -1 {
            (Axis::Y, Sign::Neg)
        } else if dy == 1 {
            (Axis::Y, Sign::Pos)
        } else if dx == -1 {
            (Axis::X, Sign::Neg)
        } else {
            (Axis::X, Sign::Pos)
        };
        Direction { axis, sign }
    }
}

} // verus!
