//! Sweeping: building geometry one dimension higher by moving it along a path

use vstd::prelude::*;

use crate::geometry::{
    translated, translation_fits, Color, CurveBoundary, GlobalPath, Point2, Surface, SurfacePath,
    Vector3,
};
use crate::objects::{Curve, Cycle, Face, GlobalEdge, HalfEdge, Region, Services, Vertex};
use crate::storage::Handle;

verus! {

/// What a swept vertex became: the edge it traced, and the vertex it arrived at
pub type SweptVertex = (Handle, Handle);

/// Remembers, per vertex, the result of sweeping it
///
/// One cache is used for one sweep operation, so that every face that meets
/// at a vertex ends up with the same side edge.
pub struct SweepCache {
    entries: Vec<(Handle, SweptVertex)>,
    map: Ghost<Map<Handle, SweptVertex>>,
}

impl SweepCache {
    /// The swept vertices, and what each became
    pub closed spec fn view(&self) -> Map<Handle, SweptVertex> {
        self.map@
    }

    /// The entries and the map agree
    pub closed spec fn wf(&self) -> bool {
        &&& forall|k: Handle|
            self.map@.contains_key(k) <==> exists|i: int|
                0 <= i < self.entries@.len() && #[trigger] self.entries@[i].0 == k
        &&& forall|i: int|
            0 <= i < self.entries@.len() ==> self.map@.contains_key(#[trigger] self.entries@[i].0)
                && self.map@[self.entries@[i].0] == self.entries@[i].1
    }

    /// Create an empty cache
    pub fn new() -> (r: SweepCache)
        ensures
            r.wf(),
            r@ == Map::<Handle, SweptVertex>::empty(),
    {
        SweepCache { entries: Vec::new(), map: Ghost(Map::empty()) }
    }

    /// Look up what a vertex became
    pub fn get(&self, vertex: Handle) -> (r: Option<SweptVertex>)
        requires
            self.wf(),
        ensures
            r == (if self@.contains_key(vertex) {
                Some(self@[vertex])
            } else {
                None
            }),
    {
        let mut i: usize = 0;
        while i < self.entries.len()
            invariant
                self.wf(),
                i <= self.entries@.len(),
                forall|j: int| 0 <= j < i ==> self.entries@[j].0 != vertex,
            decreases self.entries@.len() - i,
        {
            if self.entries[i].0 == vertex {
                return Some(self.entries[i].1);
            }
            i = i + 1;
        }
        None
    }

    /// Record what a vertex that was not swept before became
    fn insert(&mut self, vertex: Handle, swept: SweptVertex)
        requires
            old(self).wf(),
            !old(self)@.contains_key(vertex),
        ensures
            final(self).wf(),
            final(self)@ == old(self)@.insert(vertex, swept),
    {
        self.entries.push((vertex, swept));
        self.map = Ghost(self.map@.insert(vertex, swept));
        assert forall|k: Handle|
            self.map@.contains_key(k) <==> exists|i: int|
                0 <= i < self.entries@.len() && #[trigger] self.entries@[i].0 == k by {
            if k == vertex {
                assert(self.entries@[self.entries@.len() - 1].0 == k);
            } else if old(self).map@.contains_key(k) {
                let i = choose|i: int|
                    0 <= i < old(self).entries@.len() && #[trigger] old(self).entries@[i].0 == k;
                assert(self.entries@[i].0 == k);
            }
        }
    }
}

/// The result of sweeping `vertex`, and the cache afterwards, where a vertex
/// that is not cached yet becomes the vertex `fresh_vertex` and the edge
/// `fresh_edge`
pub open spec fn vertex_sweep_outcome(
    cache: Map<Handle, SweptVertex>,
    vertex: Handle,
    fresh_vertex: nat,
    fresh_edge: nat,
) -> (SweptVertex, Map<Handle, SweptVertex>) {
    if cache.contains_key(vertex) {
        (cache[vertex], cache)
    } else {
        let swept = (Handle { id: fresh_edge as usize }, Handle { id: fresh_vertex as usize });
        (swept, cache.insert(vertex, swept))
    }
}

/// Sweep a vertex along `path` into an edge
///
/// A vertex that this cache has swept before gives the same edge and vertex
/// again, and nothing is inserted. Otherwise the vertex at the displaced
/// position, and the edge from the swept vertex to it, are inserted.
pub fn sweep_vertex(
    vertex: Handle,
    path: Vector3,
    cache: &mut SweepCache,
    services: &mut Services,
) -> (r: SweptVertex)
    requires
        old(cache).wf(),
        old(services).vertices.contains(vertex),
        translation_fits(old(services).vertices@[vertex.id as int].position, path),
    ensures
        final(cache).wf(),
        (r, final(cache)@) == vertex_sweep_outcome(
            old(cache)@,
            vertex,
            old(services).vertices@.len(),
            old(services).global_edges@.len(),
        ),
        old(cache)@.contains_key(vertex) ==> final(services).vertices@ == old(
            services,
        ).vertices@ && final(services).global_edges@ == old(services).global_edges@,
        !old(cache)@.contains_key(vertex) ==> final(services).vertices@ == old(
            services,
        ).vertices@.push(
            Vertex {
                position: translated(old(services).vertices@[vertex.id as int].position, path),
            },
        ) && final(services).global_edges@ == old(services).global_edges@.push(
            GlobalEdge { a: vertex, b: r.1 },
        ),
        final(services).curves@ == old(services).curves@,
        final(services).surfaces@ == old(services).surfaces@,
        final(services).cycles@ == old(services).cycles@,
        final(services).regions@ == old(services).regions@,
        final(services).faces@ == old(services).faces@,
{
    match cache.get(vertex) {
        Some(swept) => swept,
        None => {
            let position = services.vertices.resolve(vertex).position;
            let top = services.vertices.insert(Vertex { position: position.translate(path) });
            let edge = services.global_edges.insert(GlobalEdge { a: vertex, b: top });
            cache.insert(vertex, (edge, top));
            (edge, top)
        },
    }
}

/// Sweeping a vertex a second time through the same cache gives the same
/// edge and vertex as the first time, and leaves the cache as it was.
pub proof fn lemma_vertex_sweep_is_cached(
    cache: Map<Handle, SweptVertex>,
    vertex: Handle,
    fresh_vertex: nat,
    fresh_edge: nat,
    later_vertex: nat,
    later_edge: nat,
)
    ensures
        ({
            let (first, after_first) = vertex_sweep_outcome(cache, vertex, fresh_vertex, fresh_edge);
            let (second, after_second) = vertex_sweep_outcome(
                after_first,
                vertex,
                later_vertex,
                later_edge,
            );
            second == first && after_second == after_first
        }),
{
}

/// Whether sweeping a curve with this path, on this surface, is supported
///
/// On a surface that is curved itself, neither a circle nor a line that runs
/// across both axes of the surface is: either would curve the swept surface
/// in two independent directions.
pub open spec fn curve_sweep_supported(path: SurfacePath, surface: Surface) -> bool {
    surface.u is Circle ==> match path {
        SurfacePath::Circle { .. } => false,
        SurfacePath::Line { direction, .. } => direction.u == 0 || direction.v == 0,
    }
}

/// The global path of a curve, as the `u` axis of the surface it sweeps into
///
/// A circle on a flat surface stays a circle. A line that runs along the `v`
/// axis of its surface is straight; a line along the `u` axis follows the `u`
/// axis of its surface, which is straight on a flat surface.
pub open spec fn swept_global_path(path: SurfacePath, surface: Surface) -> GlobalPath {
    match path {
        SurfacePath::Circle { radius, .. } => GlobalPath::Circle { radius },
        SurfacePath::Line { direction, .. } => if direction.u == 0 {
            GlobalPath::Line
        } else {
            surface.u
        },
    }
}

/// The surface that a curve with `curve_path` on `surface` sweeps into
pub open spec fn swept_surface(curve_path: SurfacePath, surface: Surface, path: Vector3) -> Surface {
    Surface { u: swept_global_path(curve_path, surface), v: path }
}

/// Sweep a curve along `path` into a surface
fn sweep_curve(curve_path: SurfacePath, surface: &Surface, path: Vector3) -> (r: Surface)
    requires
        curve_sweep_supported(curve_path, *surface),
    ensures
        r == swept_surface(curve_path, *surface, path),
{
    let u = match curve_path {
        SurfacePath::Circle { radius, .. } => GlobalPath::Circle { radius },
        SurfacePath::Line { direction, .. } => if direction.u == 0 {
            GlobalPath::Line
        } else {
            surface.u
        },
    };
    Surface { u, v: path }
}

/// The line along the `u` axis of a surface, at `v`
pub open spec fn u_line(v: i64) -> SurfacePath {
    SurfacePath::Line { origin: Point2 { u: 0, v }, direction: Point2 { u: 1, v: 0 } }
}

/// The line along the `v` axis of a surface, at `u`
pub open spec fn v_line(u: i64) -> SurfacePath {
    SurfacePath::Line { origin: Point2 { u, v: 0 }, direction: Point2 { u: 0, v: 1 } }
}

/// Whether `cycle` is the boundary of the face swept from `edge`: the edge
/// itself at the bottom (`v = 0`), the edge `right` traced by the vertex at
/// its end up to `c`, the top (`v = 1`) back from `c` to `d`, and the edge
/// `left` traced by its start vertex from `d` down
pub open spec fn is_swept_boundary(
    cycle: Seq<HalfEdge>,
    edge: HalfEdge,
    next_vertex: Handle,
    right: SweptVertex,
    left: SweptVertex,
    top: Handle,
) -> bool {
    let a = edge.boundary.start;
    let b = edge.boundary.end;
    &&& cycle.len() == 4
    &&& cycle[0].path == u_line(0)
    &&& cycle[0].boundary == edge.boundary
    &&& cycle[0].start_vertex == edge.start_vertex
    &&& cycle[0].global_form == edge.global_form
    &&& cycle[1].path == v_line(b)
    &&& cycle[1].boundary == (CurveBoundary { start: 0, end: 1 })
    &&& cycle[1].start_vertex == next_vertex
    &&& cycle[1].global_form == right.0
    &&& cycle[2].path == u_line(1)
    &&& cycle[2].boundary == (CurveBoundary { start: b, end: a })
    &&& cycle[2].start_vertex == right.1
    &&& cycle[2].global_form == top
    &&& cycle[3].path == v_line(a)
    &&& cycle[3].boundary == (CurveBoundary { start: 1, end: 0 })
    &&& cycle[3].start_vertex == left.1
    &&& cycle[3].global_form == left.0
}

/// Create a half-edge of a swept face, with a curve of its own on `surface`
fn swept_half_edge(
    path: SurfacePath,
    boundary: CurveBoundary,
    start_vertex: Handle,
    global_form: Handle,
    surface: Surface,
    services: &mut Services,
) -> (r: HalfEdge)
    ensures
        r == (HalfEdge { path, boundary, curve: r.curve, start_vertex, global_form }),
        final(services).curves@ == old(services).curves@.push(
            Curve { path, surface, global_form },
        ),
        r.curve.id == old(services).curves@.len(),
        final(services).vertices@ == old(services).vertices@,
        final(services).global_edges@ == old(services).global_edges@,
        final(services).surfaces@ == old(services).surfaces@,
        final(services).cycles@ == old(services).cycles@,
        final(services).regions@ == old(services).regions@,
        final(services).faces@ == old(services).faces@,
{
    let curve = services.curves.insert(Curve { path, surface, global_form });
    HalfEdge { path, boundary, curve, start_vertex, global_form }
}

/// Sweep a half-edge along `path` into a face
///
/// `next_vertex` is where the half-edge ends. Returns the new face, which
/// has the color `color`, and the half-edge at its top. The sides of the face
/// are the edges traced by the two vertices of the half-edge, through
/// `cache`, so that faces swept from neighboring half-edges share them. Each
/// of the four half-edges is a straight line in the coordinates of the new
/// surface, and has a curve of its own on it.
pub fn sweep_edge(
    edge: HalfEdge,
    next_vertex: Handle,
    surface: &Surface,
    color: Color,
    path: Vector3,
    cache: &mut SweepCache,
    services: &mut Services,
) -> (r: (Handle, HalfEdge))
    requires
        old(cache).wf(),
        curve_sweep_supported(edge.path, *surface),
        old(services).vertices.contains(edge.start_vertex),
        old(services).vertices.contains(next_vertex),
        translation_fits(old(services).vertices@[edge.start_vertex.id as int].position, path),
        translation_fits(old(services).vertices@[next_vertex.id as int].position, path),
    ensures
        final(cache).wf(),
        final(services).vertices@.len() <= old(services).vertices@.len() + 2,
        final(services).vertices@.subrange(0, old(services).vertices@.len() as int) == old(
            services,
        ).vertices@,
        final(services).global_edges@.len() <= old(services).global_edges@.len() + 3,
        final(services).global_edges@.subrange(0, old(services).global_edges@.len() as int)
            == old(services).global_edges@,
        final(services).curves@.len() == old(services).curves@.len() + 4,
        final(services).curves@.subrange(0, old(services).curves@.len() as int) == old(
            services,
        ).curves@,
        final(services).surfaces@.len() == old(services).surfaces@.len() + 1,
        final(services).surfaces@.subrange(0, old(services).surfaces@.len() as int) == old(
            services,
        ).surfaces@,
        final(services).cycles@.len() == old(services).cycles@.len() + 1,
        final(services).cycles@.subrange(0, old(services).cycles@.len() as int) == old(
            services,
        ).cycles@,
        final(services).regions@.len() == old(services).regions@.len() + 1,
        final(services).regions@.subrange(0, old(services).regions@.len() as int) == old(
            services,
        ).regions@,
        final(services).faces@ == old(services).faces@.push(
            final(services).faces@[r.0.id as int],
        ),
        r.0.id == old(services).faces@.len(),
        forall|k: Handle| #[trigger]
            old(cache)@.contains_key(k) ==> final(cache)@.contains_key(k) && final(cache)@[k]
                == old(cache)@[k],
        final(cache)@.contains_key(edge.start_vertex),
        final(cache)@.contains_key(next_vertex),
        final(services).faces.contains(r.0),
        ({
            let face = final(services).faces@[r.0.id as int];
            let right = final(cache)@[next_vertex];
            let left = final(cache)@[edge.start_vertex];
            &&& face.color == Some(color)
            &&& final(services).surfaces.contains(face.surface)
            &&& final(services).surfaces@[face.surface.id as int] == swept_surface(
                edge.path,
                *surface,
                path,
            )
            &&& final(services).regions.contains(face.region)
            &&& final(services).regions@[face.region.id as int].interiors@.len() == 0
            &&& final(services).cycles.contains(
                final(services).regions@[face.region.id as int].exterior,
            )
            &&& {
                let exterior = final(services).regions@[face.region.id as int].exterior;
                let cycle = final(services).cycles@[exterior.id as int]@;
                &&& is_swept_boundary(cycle, edge, next_vertex, right, left, r.1.global_form)
                &&& cycle[2] == r.1
                &&& forall|i: int|
                    0 <= i < 4 ==> final(services).curves.contains(#[trigger] cycle[i].curve)
                        && final(services).curves@[cycle[i].curve.id as int] == (Curve {
                            path: cycle[i].path,
                            surface: swept_surface(edge.path, *surface, path),
                            global_form: cycle[i].global_form,
                        })
            }
            &&& final(services).global_edges.contains(r.1.global_form)
            &&& final(services).global_edges@[r.1.global_form.id as int] == (GlobalEdge {
                a: right.1,
                b: left.1,
            })
        }),
{
    let new_surface = sweep_curve(edge.path, surface, path);
    let surface_handle = services.surfaces.insert(new_surface);

    let right = sweep_vertex(next_vertex, path, cache, services);
    let left = sweep_vertex(edge.start_vertex, path, cache, services);
    let top_global = services.global_edges.insert(GlobalEdge { a: right.1, b: left.1 });

    let a = edge.boundary.start;
    let b = edge.boundary.end;
    let u0 = SurfacePath::Line { origin: Point2 { u: 0, v: 0 }, direction: Point2 { u: 1, v: 0 } };
    let u1 = SurfacePath::Line { origin: Point2 { u: 0, v: 1 }, direction: Point2 { u: 1, v: 0 } };
    let vb = SurfacePath::Line { origin: Point2 { u: b, v: 0 }, direction: Point2 { u: 0, v: 1 } };
    let va = SurfacePath::Line { origin: Point2 { u: a, v: 0 }, direction: Point2 { u: 0, v: 1 } };

    let bottom = swept_half_edge(
        u0,
        edge.boundary,
        edge.start_vertex,
        edge.global_form,
        new_surface,
        services,
    );
    let up = swept_half_edge(
        vb,
        CurveBoundary { start: 0, end: 1 },
        next_vertex,
        right.0,
        new_surface,
        services,
    );
    let top = swept_half_edge(
        u1,
        CurveBoundary { start: b, end: a },
        right.1,
        top_global,
        new_surface,
        services,
    );
    let down = swept_half_edge(
        va,
        CurveBoundary { start: 1, end: 0 },
        left.1,
        left.0,
        new_surface,
        services,
    );

    let mut half_edges: Vec<HalfEdge> = Vec::new();
    half_edges.push(bottom);
    half_edges.push(up);
    half_edges.push(top);
    half_edges.push(down);
    let exterior = services.cycles.insert(Cycle::new(half_edges));
    let region = services.regions.insert(Region { exterior, interiors: Vec::new() });
    let face = services.faces.insert(
        Face { surface: surface_handle, region, color: Some(color) },
    );
    (face, top)
}

/// The point of a straight path at parameter `t`, in surface coordinates;
/// none for a circle
pub open spec fn line_point(path: SurfacePath, t: int) -> Option<(int, int)> {
    match path {
        SurfacePath::Line { origin, direction } => Some(
            (origin.u + t * direction.u, origin.v + t * direction.v),
        ),
        SurfacePath::Circle { .. } => None,
    }
}

/// The boundary of a swept face is closed: each of its four straight
/// half-edges ends, in the coordinates of the new surface, where the next one
/// starts, and the last one ends where the first one starts.
pub proof fn lemma_swept_boundary_is_closed(
    cycle: Seq<HalfEdge>,
    edge: HalfEdge,
    next_vertex: Handle,
    right: SweptVertex,
    left: SweptVertex,
    top: Handle,
)
    requires
        is_swept_boundary(cycle, edge, next_vertex, right, left, top),
    ensures
        forall|i: int|
            0 <= i < 4 ==> {
                &&& line_point(cycle[i].path, cycle[i].boundary.start as int) is Some
                &&& #[trigger] line_point(cycle[i].path, cycle[i].boundary.end as int)
                    == line_point(cycle[(i + 1) % 4].path, cycle[(i + 1) % 4].boundary.start as int)
            },
{
    let a = edge.boundary.start as int;
    let b = edge.boundary.end as int;
    assert(line_point(cycle[0].path, a) == Some((a, 0int)));
    assert(line_point(cycle[0].path, b) == Some((b, 0int)));
    assert(line_point(cycle[1].path, 0) == Some((b, 0int)));
    assert(line_point(cycle[1].path, 1) == Some((b, 1int)));
    assert(line_point(cycle[2].path, b) == Some((b, 1int)));
    assert(line_point(cycle[2].path, a) == Some((a, 1int)));
    assert(line_point(cycle[3].path, 1) == Some((a, 1int)));
    assert(line_point(cycle[3].path, 0) == Some((a, 0int)));
}

} // verus!
