use fj_kernel::approx::{
    approx_global_curve, approx_with_cache, ApproxPoint, CacheKey, CurveApprox, CurveCache,
    GlobalCurveApprox,
};
use fj_kernel::geometry::{GlobalPath, Point2, RangeOnPath, Surface, SurfacePath, Vector3};
use fj_kernel::objects::Curve;
use fj_kernel::sampling::{sample_between, sample_range};
use fj_kernel::storage::Handle;

fn flat_surface() -> Surface {
    Surface { u: GlobalPath::Line, v: Vector3 { x: 0, y: 0, z: 1 } }
}

fn curved_surface(radius: u64) -> Surface {
    Surface { u: GlobalPath::Circle { radius }, v: Vector3 { x: 0, y: 0, z: 1 } }
}

fn line_from_points(a: [i64; 2], b: [i64; 2]) -> SurfacePath {
    SurfacePath::Line {
        origin: Point2 { u: a[0], v: a[1] },
        direction: Point2 { u: b[0] - a[0], v: b[1] - a[1] },
    }
}

fn curve(path: SurfacePath, surface: Surface) -> Curve {
    Curve { path, surface, global_form: Handle { id: 0 } }
}

fn approx(curve: &Curve, range: RangeOnPath, step: u64) -> CurveApprox {
    let mut cache = CurveCache::new();
    approx_with_cache(curve, range, step, &mut cache)
}

#[test]
fn approx_line_on_flat_surface() {
    let curve = curve(line_from_points([1, 1], [2, 1]), flat_surface());
    let range = RangeOnPath { start: 0, end: 1 };

    let approx = approx(&curve, range, 1);

    assert_eq!(approx.points, CurveApprox::empty().points);
}

#[test]
fn approx_line_on_curved_surface_but_not_along_curve() {
    let curve = curve(line_from_points([1, 1], [1, 2]), curved_surface(1));
    let range = RangeOnPath { start: 0, end: 1 };

    let approx = approx(&curve, range, 1);

    assert_eq!(approx.points, CurveApprox::empty().points);
}

#[test]
fn approx_line_on_curved_surface_along_curve() {
    let curve = curve(line_from_points([0, 1], [1, 1]), curved_surface(1));
    let range = RangeOnPath { start: 0, end: 628 };
    let step = 100;

    let approx = approx(&curve, range, step);

    let expected: Vec<ApproxPoint> = sample_range(0, 628, step)
        .into_iter()
        .map(|u| ApproxPoint { local_form: u, source: Some(curve) })
        .collect();
    assert_eq!(approx.points, expected);
    assert_eq!(approx.points.len(), 6);
}

#[test]
fn approx_circle_on_flat_surface() {
    let path = SurfacePath::Circle { center: Point2 { u: 0, v: 0 }, radius: 1 };
    let curve = curve(path, flat_surface());
    let range = RangeOnPath { start: 0, end: 628 };
    let step = 100;

    let approx = approx(&curve, range, step);

    let expected: Vec<ApproxPoint> = sample_range(0, 628, step)
        .into_iter()
        .map(|t| ApproxPoint { local_form: t, source: Some(curve) })
        .collect();
    assert_eq!(approx.points, expected);
}

#[test]
fn samples_exclude_both_bounds() {
    assert_eq!(sample_between(0, 400, 100), vec![100, 200, 300]);
    assert_eq!(sample_between(-250, 50, 100), vec![-200, -100, 0]);
    assert_eq!(sample_between(-300, -100, 100), vec![-200]);
    assert_eq!(sample_between(5, 5, 1), Vec::<i64>::new());
    assert_eq!(sample_between(0, 1, 1), Vec::<i64>::new());
}

#[test]
fn samples_follow_the_direction_of_the_range() {
    assert_eq!(sample_range(400, 0, 100), vec![300, 200, 100]);
    assert_eq!(sample_range(0, 400, 100), vec![100, 200, 300]);
}

#[test]
fn samples_at_the_extremes_of_the_parameter() {
    let r = sample_between(i64::MIN, i64::MAX, 1u64 << 62);
    assert_eq!(r, vec![-(1i64 << 62), 0, 1i64 << 62]);
    assert_eq!(sample_between(i64::MIN, i64::MAX, u64::MAX), vec![0]);
}

#[test]
fn a_smaller_step_gives_more_points() {
    let coarse = sample_range(0, 628, 100).len();
    let fine = sample_range(0, 628, 50).len();
    assert_eq!(coarse, 6);
    assert_eq!(fine, 12);
    assert!(fine >= coarse);
    // with a step that does not divide the other, fewer points can come out
    assert_eq!(sample_between(208, 210, 209).len(), 1);
    assert_eq!(sample_between(208, 210, 200).len(), 0);
}

#[test]
fn approximation_of_a_line_on_a_curved_surface_is_in_the_curve_parameter() {
    // u = 5 + 3 t, for t from 0 to 10
    let path = SurfacePath::Line { origin: Point2 { u: 5, v: 0 }, direction: Point2 { u: 3, v: 0 } };
    let curve = curve(path, curved_surface(2));
    let range = RangeOnPath { start: 0, end: 10 };
    assert_eq!(approx_global_curve(&curve, range, 3).points, vec![3, 6, 9]);
    let approx = approx(&curve, RangeOnPath { start: 10, end: 0 }, 4);
    let ts: Vec<i64> = approx.points.iter().map(|p| p.local_form).collect();
    assert_eq!(ts, vec![8, 4]);
    for t in ts {
        assert!(0 < t && t < 10);
    }
}

#[test]
fn second_approximation_comes_from_the_cache() {
    let path = SurfacePath::Circle { center: Point2 { u: 0, v: 0 }, radius: 1 };
    let curve = curve(path, flat_surface());
    let range = RangeOnPath { start: 0, end: 628 };
    let mut cache = CurveCache::new();

    let first = approx_with_cache(&curve, range, 100, &mut cache);
    let key = CacheKey { curve: curve.global_form, range };
    let cached = cache.get(key).expect("first approximation was cached");
    assert_eq!(cached.points, vec![100, 200, 300, 400, 500, 600]);

    // With a different step, a recomputation would differ; the cache wins.
    let second = approx_with_cache(&curve, range, 50, &mut cache);
    assert_eq!(first.points, second.points);
}

#[test]
fn cache_insert_replaces_and_returns() {
    let mut cache = CurveCache::new();
    let key = CacheKey { curve: Handle { id: 3 }, range: RangeOnPath { start: 0, end: 9 } };
    assert!(cache.get(key).is_none());

    let r = cache.insert(key, GlobalCurveApprox { points: vec![1, 2] });
    assert_eq!(r.points, vec![1, 2]);
    let r = cache.insert(key, GlobalCurveApprox { points: vec![4] });
    assert_eq!(r.points, vec![4]);
    assert_eq!(cache.get(key).unwrap().points, vec![4]);

    let other = CacheKey { curve: Handle { id: 4 }, range: RangeOnPath { start: 0, end: 9 } };
    assert!(cache.get(other).is_none());
}

#[test]
fn curve_approx_with_points_appends() {
    let a = ApproxPoint { local_form: 1, source: None };
    let b = ApproxPoint { local_form: 2, source: None };
    let approx = CurveApprox::empty().with_points(vec![a]).with_points(vec![b]);
    assert_eq!(approx.points, vec![a, b]);
    assert!(CurveApprox::empty().points.is_empty());
}
