use fj_kernel::geometry::{
    Color, CurveBoundary, GlobalPath, Point2, Point3, Surface, SurfacePath, Vector3,
};
use fj_kernel::objects::{Cycle, GlobalEdge, HalfEdge, Region, Services, Vertex};
use fj_kernel::sketch::Sketch;
use fj_kernel::storage::Handle;
use fj_kernel::sweep::{sweep_edge, sweep_vertex, SweepCache};

fn up(height: i64) -> Vector3 {
    Vector3 { x: 0, y: 0, z: height }
}

#[test]
fn sweeping_a_vertex_twice_gives_the_same_edge() {
    let mut services = Services::new();
    let mut cache = SweepCache::new();
    let v = services.vertices.insert(Vertex { position: Point3 { x: 1, y: 2, z: 3 } });

    let first = sweep_vertex(v, up(5), &mut cache, &mut services);
    let second = sweep_vertex(v, up(5), &mut cache, &mut services);

    assert_eq!(first, second);
    assert_eq!(services.vertices.len(), 2);
    assert_eq!(services.global_edges.len(), 1);
    assert_eq!(services.vertices.resolve(first.1).position, Point3 { x: 1, y: 2, z: 8 });
    assert_eq!(*services.global_edges.resolve(first.0), GlobalEdge { a: v, b: first.1 });
}

#[test]
fn sweeping_another_vertex_gives_another_edge() {
    let mut services = Services::new();
    let mut cache = SweepCache::new();
    let v = services.vertices.insert(Vertex { position: Point3 { x: 0, y: 0, z: 0 } });
    let w = services.vertices.insert(Vertex { position: Point3 { x: 1, y: 0, z: 0 } });

    let a = sweep_vertex(v, up(1), &mut cache, &mut services);
    let b = sweep_vertex(w, up(1), &mut cache, &mut services);

    assert_ne!(a.0, b.0);
    assert_ne!(a.1, b.1);
    assert_eq!(cache.get(v), Some(a));
    assert_eq!(cache.get(w), Some(b));
}

#[test]
fn sweeping_an_edge_builds_a_face_with_four_sides() {
    let mut services = Services::new();
    let mut cache = SweepCache::new();
    let a = services.vertices.insert(Vertex { position: Point3 { x: 0, y: 0, z: 0 } });
    let b = services.vertices.insert(Vertex { position: Point3 { x: 1, y: 0, z: 0 } });
    let global = services.global_edges.insert(GlobalEdge { a, b });
    let surface = Surface { u: GlobalPath::Line, v: Vector3 { x: 0, y: 1, z: 0 } };
    let edge = HalfEdge {
        path: SurfacePath::Line { origin: Point2 { u: 0, v: 0 }, direction: Point2 { u: 1, v: 0 } },
        boundary: CurveBoundary { start: 0, end: 1 },
        curve: Handle { id: 0 },
        start_vertex: a,
        global_form: global,
    };
    let color = Color { r: 255, g: 0, b: 0, a: 255 };

    let (face, top) = sweep_edge(edge, b, &surface, color, up(2), &mut cache, &mut services);

    let face = *services.faces.resolve(face);
    assert_eq!(face.color, Some(color));
    assert_eq!(
        *services.surfaces.resolve(face.surface),
        Surface { u: GlobalPath::Line, v: up(2) }
    );
    let region = services.regions.resolve(face.region);
    let cycle = services.cycles.resolve(region.exterior);
    assert_eq!(cycle.len(), 4);
    assert_eq!(cycle.half_edges[2], top);

    let (right, c) = cache.get(b).unwrap();
    let (left, d) = cache.get(a).unwrap();
    let starts: Vec<Handle> = cycle.half_edges.iter().map(|e| e.start_vertex).collect();
    assert_eq!(starts, vec![a, b, c, d]);
    let globals: Vec<Handle> = cycle.half_edges.iter().map(|e| e.global_form).collect();
    assert_eq!(globals, vec![global, right, top.global_form, left]);
    assert_eq!(top.boundary, CurveBoundary { start: 1, end: 0 });
    assert_eq!(*services.global_edges.resolve(top.global_form), GlobalEdge { a: c, b: d });
    assert_eq!(services.vertices.resolve(c).position, Point3 { x: 1, y: 0, z: 2 });
    assert_eq!(services.curves.len(), 4);
}

#[test]
fn neighboring_swept_faces_share_their_side_edge() {
    let mut services = Services::new();
    let mut cache = SweepCache::new();
    let surface = Surface { u: GlobalPath::Line, v: Vector3 { x: 0, y: 1, z: 0 } };
    let vs: Vec<Handle> = (0..3)
        .map(|i| services.vertices.insert(Vertex { position: Point3 { x: i, y: 0, z: 0 } }))
        .collect();
    let edge = |start: Handle, end: Handle, services: &mut Services| HalfEdge {
        path: SurfacePath::Line { origin: Point2 { u: 0, v: 0 }, direction: Point2 { u: 1, v: 0 } },
        boundary: CurveBoundary { start: 0, end: 1 },
        curve: Handle { id: 0 },
        start_vertex: start,
        global_form: services.global_edges.insert(GlobalEdge { a: start, b: end }),
    };
    let first = edge(vs[0], vs[1], &mut services);
    let second = edge(vs[1], vs[2], &mut services);
    let color = Color { r: 0, g: 0, b: 0, a: 255 };

    let (f1, _) = sweep_edge(first, vs[1], &surface, color, up(1), &mut cache, &mut services);
    let (f2, _) = sweep_edge(second, vs[2], &surface, color, up(1), &mut cache, &mut services);

    let side_of = |face: Handle, i: usize, services: &Services| {
        let face = services.faces.resolve(face);
        let region = services.regions.resolve(face.region);
        services.cycles.resolve(region.exterior).half_edges[i].global_form
    };
    // the right side of the first face is the left side of the second
    assert_eq!(side_of(f1, 1, &services), side_of(f2, 3, &services));
}

#[test]
fn sweeping_a_circle_on_a_flat_surface_gives_a_curved_surface() {
    let mut services = Services::new();
    let mut cache = SweepCache::new();
    let a = services.vertices.insert(Vertex { position: Point3 { x: 2, y: 0, z: 0 } });
    let b = services.vertices.insert(Vertex { position: Point3 { x: -2, y: 0, z: 0 } });
    let global = services.global_edges.insert(GlobalEdge { a, b });
    let flat = Surface { u: GlobalPath::Line, v: Vector3 { x: 0, y: 1, z: 0 } };
    let edge = HalfEdge {
        path: SurfacePath::Circle { center: Point2 { u: 0, v: 0 }, radius: 2 },
        boundary: CurveBoundary { start: 0, end: 314 },
        curve: Handle { id: 0 },
        start_vertex: a,
        global_form: global,
    };
    let color = Color { r: 0, g: 0, b: 0, a: 255 };
    let (face, top) = sweep_edge(edge, b, &flat, color, up(1), &mut cache, &mut services);
    let face = services.faces.resolve(face);
    assert_eq!(
        *services.surfaces.resolve(face.surface),
        Surface { u: GlobalPath::Circle { radius: 2 }, v: up(1) }
    );
    assert_eq!(top.boundary, CurveBoundary { start: 314, end: 0 });
}

#[test]
fn spacer_walls_are_two_cylinders_and_caps_one_annulus() {
    let (outer, inner, height) = (2u64, 1u64, 1i64);
    let mut services = Services::new();
    let mut cache = SweepCache::new();
    let xy = Surface { u: GlobalPath::Line, v: Vector3 { x: 0, y: 1, z: 0 } };
    let bottom = services.surfaces.insert(xy);
    let color = Color { r: 0, g: 0, b: 0, a: 255 };

    // each boundary is one circular half-edge, starting and ending at one vertex
    let circle = |radius: u64, services: &mut Services| {
        let v = services.vertices.insert(Vertex {
            position: Point3 { x: radius as i64, y: 0, z: 0 },
        });
        let global = services.global_edges.insert(GlobalEdge { a: v, b: v });
        HalfEdge {
            path: SurfacePath::Circle { center: Point2 { u: 0, v: 0 }, radius },
            boundary: CurveBoundary { start: 0, end: 628 },
            curve: Handle { id: 0 },
            start_vertex: v,
            global_form: global,
        }
    };
    let outer_edge = circle(outer, &mut services);
    let inner_edge = circle(inner, &mut services);
    let exterior = services.cycles.insert(Cycle::new(vec![outer_edge]));
    let interior = services.cycles.insert(Cycle::new(vec![inner_edge]));
    let region = services.regions.insert(Region { exterior, interiors: vec![interior] });

    let caps = Sketch::new(vec![region]).faces(bottom, &mut services);
    assert_eq!(caps.len(), 1);

    let mut walls = Vec::new();
    for edge in [outer_edge, inner_edge] {
        let (face, top) =
            sweep_edge(edge, edge.start_vertex, &xy, color, up(height), &mut cache, &mut services);
        walls.push(face);
        // the top of a wall is a closed loop again: its ends are one vertex
        let (_, c) = cache.get(edge.start_vertex).unwrap();
        assert_eq!(top.start_vertex, c);
    }
    let radii: Vec<GlobalPath> = walls
        .iter()
        .map(|f| services.surfaces.resolve(services.faces.resolve(*f).surface).u)
        .collect();
    assert_eq!(
        radii,
        vec![GlobalPath::Circle { radius: outer }, GlobalPath::Circle { radius: inner }]
    );
    // one vertex per boundary at each end, one side edge per boundary
    assert_eq!(services.vertices.len(), 4);
}
