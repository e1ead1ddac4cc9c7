//! The entities of the boundary representation

use vstd::prelude::*;

use crate::geometry::{Color, CurveBoundary, Point3, Surface, SurfacePath};
use crate::storage::{Handle, Store};

verus! {

/// A point in global space
#[derive(Clone, Copy, Debug, PartialEq, Eq, Hash, Structural)]
pub struct Vertex {
    pub position: Point3,
}

/// The global identity of an edge, shared by the half-edges that bound
/// adjoining faces, given by the vertices it connects
#[derive(Clone, Copy, Debug, PartialEq, Eq, Hash, Structural)]
pub struct GlobalEdge {
    pub a: Handle,
    pub b: Handle,
}

/// An oriented, bounded arc of a curve within a surface
#[derive(Clone, Copy, Debug, PartialEq, Eq, Hash, Structural)]
pub struct HalfEdge {
    /// The path of the curve, in the coordinates of the surface
    pub path: SurfacePath,
    /// Where on that path the half-edge starts and ends
    pub boundary: CurveBoundary,
    /// The curve the half-edge lies on
    pub curve: Handle,
    /// The vertex the half-edge starts at
    pub start_vertex: Handle,
    /// The global edge the half-edge is a side of
    pub global_form: Handle,
}

impl HalfEdge {
    /// Copy the half-edge, with another curve
    pub fn replace_curve(&self, curve: Handle) -> (r: HalfEdge)
        ensures
            r == (HalfEdge { curve, ..*self }),
    {
        HalfEdge { curve, ..*self }
    }

    /// Copy the half-edge, with another start vertex
    pub fn replace_start_vertex(&self, start_vertex: Handle) -> (r: HalfEdge)
        ensures
            r == (HalfEdge { start_vertex, ..*self }),
    {
        HalfEdge { start_vertex, ..*self }
    }
}

/// A curve: a path on a surface, and the global curve it is a local form of
#[derive(Clone, Copy, Debug, PartialEq, Eq, Hash, Structural)]
pub struct Curve {
    pub path: SurfacePath,
    pub surface: Surface,
    pub global_form: Handle,
}

/// An ordered, closed loop of half-edges
///
/// Positions wrap around: in a cycle of `n` half-edges, the one after the
/// half-edge at `n - 1` is the one at `0`.
pub struct Cycle {
    pub half_edges: Vec<HalfEdge>,
}

impl Cycle {
    /// The half-edges, in order
    pub open spec fn view(&self) -> Seq<HalfEdge> {
        self.half_edges@
    }

    /// Create a cycle from half-edges, in order
    pub fn new(half_edges: Vec<HalfEdge>) -> (r: Cycle)
        ensures
            r@ == half_edges@,
    {
        Cycle { half_edges }
    }

    /// The number of half-edges
    pub fn len(&self) -> (r: usize)
        ensures
            r == self@.len(),
    {
        self.half_edges.len()
    }

    /// The half-edge at a position
    pub fn nth_edge(&self, index: usize) -> (r: HalfEdge)
        requires
            index < self@.len(),
        ensures
            r == self@[index as int],
    {
        self.half_edges[index]
    }
}

/// A planar area: one exterior cycle, and interior cycles for its holes
pub struct Region {
    pub exterior: Handle,
    pub interiors: Vec<Handle>,
}

/// A region, placed on a surface
#[derive(Clone, Copy, Debug, PartialEq, Eq, Hash, Structural)]
pub struct Face {
    pub surface: Handle,
    pub region: Handle,
    pub color: Option<Color>,
}

impl Face {
    /// A face without a color
    pub open spec fn spec_new(surface: Handle, region: Handle) -> Face {
        Face { surface, region, color: None }
    }

    /// Create a face without a color
    pub fn new(surface: Handle, region: Handle) -> (r: Face)
        ensures
            r == Face::spec_new(surface, region),
    {
        Face { surface, region, color: None }
    }
}

/// The stores of all kinds of objects
pub struct Services {
    pub vertices: Store<Vertex>,
    pub global_edges: Store<GlobalEdge>,
    pub curves: Store<Curve>,
    pub surfaces: Store<Surface>,
    pub cycles: Store<Cycle>,
    pub regions: Store<Region>,
    pub faces: Store<Face>,
}

impl Services {
    /// Create empty stores
    pub fn new() -> (r: Services)
        ensures
            r.vertices@.len() == 0,
            r.global_edges@.len() == 0,
            r.curves@.len() == 0,
            r.surfaces@.len() == 0,
            r.cycles@.len() == 0,
            r.regions@.len() == 0,
            r.faces@.len() == 0,
    {
        Services {
            vertices: Store::new(),
            global_edges: Store::new(),
            curves: Store::new(),
            surfaces: Store::new(),
            cycles: Store::new(),
            regions: Store::new(),
            faces: Store::new(),
        }
    }
}

} // verus!
