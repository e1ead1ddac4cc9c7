//! Curve approximation
//!
//! A curve is approximated over a range of its parameter, by samples of that
//! parameter. The bounds of the range are never part of an approximation:
//! the caller knows them already, and may need to treat them differently
//! when approximations of adjoining curves are stitched together.

use vstd::prelude::*;

use crate::geometry::{GlobalPath, RangeOnPath, SurfacePath};
use crate::objects::Curve;
use crate::sampling::{lemma_samples_exclude_bounds, range_samples, sample_range};
use crate::storage::Handle;

verus! {

/// A point of an approximation: a curve parameter, and the curve it was
/// sampled from
#[derive(Clone, Copy, Debug, PartialEq, Eq, Hash, Structural)]
pub struct ApproxPoint {
    pub local_form: i64,
    pub source: Option<Curve>,
}

/// An approximation of a curve
pub struct CurveApprox {
    /// The points that approximate the curve
    pub points: Vec<ApproxPoint>,
}

impl CurveApprox {
    /// Create an empty approximation
    pub fn empty() -> (r: CurveApprox)
        ensures
            r.points@ == Seq::<ApproxPoint>::empty(),
    {
        CurveApprox { points: Vec::new() }
    }

    /// Add points to the approximation, after those it has
    pub fn with_points(self, points: Vec<ApproxPoint>) -> (r: CurveApprox)
        ensures
            r.points@ == self.points@ + points@,
    {
        let mut all = self.points;
        let mut points = points;
        all.append(&mut points);
        CurveApprox { points: all }
    }
}

/// An approximation of a global curve: the sampled parameters, in order
pub struct GlobalCurveApprox {
    pub points: Vec<i64>,
}

impl GlobalCurveApprox {
    /// The sampled parameters
    pub open spec fn view(&self) -> Seq<int> {
        self.points@.map_values(|x: i64| x as int)
    }

    /// Copy the approximation
    pub fn duplicate(&self) -> (r: GlobalCurveApprox)
        ensures
            r.points@ == self.points@,
            r@ == self@,
    {
        let mut points: Vec<i64> = Vec::new();
        let mut i: usize = 0;
        while i < self.points.len()
            invariant
                i <= self.points@.len(),
                points@ == self.points@.subrange(0, i as int),
            decreases self.points@.len() - i,
        {
            points.push(self.points[i]);
            i = i + 1;
            proof {
                assert(points@ =~= self.points@.subrange(0, i as int));
            }
        }
        proof {
            assert(points@ =~= self.points@);
        }
        GlobalCurveApprox { points }
    }
}

/// What a cached approximation is looked up by: the global curve, and the
/// range on it
#[derive(Clone, Copy, Debug, PartialEq, Eq, Hash, Structural)]
pub struct CacheKey {
    pub curve: Handle,
    pub range: RangeOnPath,
}

/// A cache of approximations of global curves
///
/// The same global curve is often approximated once per face that refers to
/// it. Taking the cached approximation makes all of those faces share the
/// very same points.
pub struct CurveCache {
    entries: Vec<(CacheKey, GlobalCurveApprox)>,
    map: Ghost<Map<CacheKey, Seq<int>>>,
}

impl CurveCache {
    /// The cached approximations
    pub closed spec fn view(&self) -> Map<CacheKey, Seq<int>> {
        self.map@
    }

    /// The entries and the map agree
    pub closed spec fn wf(&self) -> bool {
        &&& forall|k: CacheKey|
            self.map@.contains_key(k) <==> exists|i: int|
                0 <= i < self.entries@.len() && #[trigger] self.entries@[i].0 == k
        &&& forall|i: int|
            0 <= i < self.entries@.len() ==> self.map@.contains_key(#[trigger] self.entries@[i].0)
                && self.map@[self.entries@[i].0] == self.entries@[i].1@
        &&& forall|i: int, j: int|
            0 <= i < j < self.entries@.len() ==> #[trigger] self.entries@[i].0
                != #[trigger] self.entries@[j].0
    }

    /// Create an empty cache
    pub fn new() -> (r: CurveCache)
        ensures
            r.wf(),
            r@ == Map::<CacheKey, Seq<int>>::empty(),
    {
        CurveCache { entries: Vec::new(), map: Ghost(Map::empty()) }
    }

    /// The position of the entry for `key`, if there is one
    fn position(&self, key: CacheKey) -> (r: Option<usize>)
        requires
            self.wf(),
        ensures
            r is None <==> !self@.contains_key(key),
            r matches Some(i) ==> i < self.entries@.len() && self.entries@[i as int].0 == key,
    {
        let mut i: usize = 0;
        while i < self.entries.len()
            invariant
                self.wf(),
                i <= self.entries@.len(),
                forall|j: int| 0 <= j < i ==> self.entries@[j].0 != key,
            decreases self.entries@.len() - i,
        {
            if self.entries[i].0 == key {
                return Some(i);
            }
            i = i + 1;
        }
        None
    }

    /// Insert the approximation of a global curve over a range, and hand it
    /// back
    pub fn insert(&mut self, key: CacheKey, approx: GlobalCurveApprox) -> (r: GlobalCurveApprox)
        requires
            old(self).wf(),
        ensures
            final(self).wf(),
            final(self)@ == old(self)@.insert(key, approx@),
            r.points@ == approx.points@,
    {
        let copy = approx.duplicate();
        match self.position(key) {
            Some(i) => {
                self.entries.set(i, (key, copy));
                self.map = Ghost(self.map@.insert(key, approx@));
                assert forall|k: CacheKey|
                    self.map@.contains_key(k) <==> exists|j: int|
                        0 <= j < self.entries@.len() && #[trigger] self.entries@[j].0 == k by {
                    if k == key {
                        assert(self.entries@[i as int].0 == k);
                    } else if old(self).map@.contains_key(k) {
                        let j = choose|j: int|
                            0 <= j < old(self).entries@.len() && #[trigger] old(
                                self,
                            ).entries@[j].0 == k;
                        assert(self.entries@[j].0 == k);
                    }
                }
            },
            None => {
                self.entries.push((key, copy));
                self.map = Ghost(self.map@.insert(key, approx@));
                assert forall|k: CacheKey|
                    self.map@.contains_key(k) <==> exists|j: int|
                        0 <= j < self.entries@.len() && #[trigger] self.entries@[j].0 == k by {
                    if k == key {
                        assert(self.entries@[self.entries@.len() - 1].0 == k);
                    } else if old(self).map@.contains_key(k) {
                        let j = choose|j: int|
                            0 <= j < old(self).entries@.len() && #[trigger] old(
                                self,
                            ).entries@[j].0 == k;
                        assert(self.entries@[j].0 == k);
                    }
                }
            },
        }
        approx
    }

    /// Access the approximation for a global curve over a range, if there is
    /// one
    pub fn get(&self, key: CacheKey) -> (r: Option<GlobalCurveApprox>)
        requires
            self.wf(),
        ensures
            r is Some <==> self@.contains_key(key),
            r matches Some(a) ==> a@ == self@[key],
    {
        match self.position(key) {
            Some(i) => Some(self.entries[i].1.duplicate()),
            None => None,
        }
    }
}

/// Whether a curve can be approximated: a circle on a surface that is curved
/// itself cannot
pub open spec fn approx_supported(curve: Curve) -> bool {
    !(curve.path is Circle && curve.surface.u is Circle)
}

/// Whether a line on `curve`'s surface bends with the surface: it does
/// where the surface is curved along `u` and the line advances along `u`
pub open spec fn line_follows_curvature(curve: Curve) -> bool {
    match curve.path {
        SurfacePath::Line { direction, .. } => curve.surface.u is Circle && direction.u != 0,
        SurfacePath::Circle { .. } => false,
    }
}

/// The curve parameters that approximate the global form of `curve` over
/// `range`, sampled at a spacing of `step` in that parameter, in order from
/// the start of the range towards its end
///
/// A circle on a flat surface is sampled in its own parameter, and so is a
/// line that bends with a curved surface. Any other line is straight in
/// global space and needs no samples.
pub open spec fn global_curve_samples(curve: Curve, range: RangeOnPath, step: int) -> Seq<int> {
    if curve.path is Circle || line_follows_curvature(curve) {
        range_samples(range.start as int, range.end as int, step)
    } else {
        Seq::empty()
    }
}

/// Approximate the global form of a curve over a range
///
/// `step` is the spacing of samples in the curve's parameter that keeps the
/// approximation within the tolerance.
pub fn approx_global_curve(curve: &Curve, range: RangeOnPath, step: u64) -> (r: GlobalCurveApprox)
    requires
        step > 0,
        approx_supported(*curve),
    ensures
        r@ == global_curve_samples(*curve, range, step as int),
{
    let needs_samples = match curve.path {
        SurfacePath::Circle { .. } => true,
        SurfacePath::Line { direction, .. } => match curve.surface.u {
            GlobalPath::Line => false,
            GlobalPath::Circle { .. } => direction.u != 0,
        },
    };
    if needs_samples {
        GlobalCurveApprox { points: sample_range(range.start, range.end, step) }
    } else {
        let r = GlobalCurveApprox { points: Vec::new() };
        assert(r@ =~= Seq::<int>::empty());
        r
    }
}

/// The approximation of `curve` over `range`, and the cache afterwards: the
/// cached approximation of its global form over that range if there is one,
/// or else a fresh one, which is then cached
pub open spec fn curve_approx_outcome(
    cache: Map<CacheKey, Seq<int>>,
    curve: Curve,
    range: RangeOnPath,
    step: int,
) -> (Seq<int>, Map<CacheKey, Seq<int>>) {
    let key = CacheKey { curve: curve.global_form, range };
    if cache.contains_key(key) {
        (cache[key], cache)
    } else {
        let samples = global_curve_samples(curve, range, step);
        (samples, cache.insert(key, samples))
    }
}

/// Approximate a curve over a range, through a cache of approximations of
/// global curves
///
/// Each point of the result carries `curve` as its source.
pub fn approx_with_cache(curve: &Curve, range: RangeOnPath, step: u64, cache: &mut CurveCache) -> (r:
    CurveApprox)
    requires
        old(cache).wf(),
        step > 0,
        approx_supported(*curve),
    ensures
        final(cache).wf(),
        ({
            let (samples, after) = curve_approx_outcome(old(cache)@, *curve, range, step as int);
            &&& final(cache)@ == after
            &&& r.points@.len() == samples.len()
            &&& forall|i: int|
                0 <= i < samples.len() ==> #[trigger] r.points@[i] == (ApproxPoint {
                    local_form: r.points@[i].local_form,
                    source: Some(*curve),
                }) && r.points@[i].local_form as int == samples[i]
        }),
{
    let key = CacheKey { curve: curve.global_form, range };
    let global = match cache.get(key) {
        Some(approx) => approx,
        None => {
            let approx = approx_global_curve(curve, range, step);
            cache.insert(key, approx)
        },
    };
    let mut points: Vec<ApproxPoint> = Vec::new();
    let mut i: usize = 0;
    while i < global.points.len()
        invariant
            i <= global.points@.len(),
            points@.len() == i,
            forall|j: int|
                0 <= j < i ==> #[trigger] points@[j] == (ApproxPoint {
                    local_form: global.points@[j],
                    source: Some(*curve),
                }),
        decreases global.points@.len() - i,
    {
        points.push(ApproxPoint { local_form: global.points[i], source: Some(*curve) });
        i = i + 1;
    }
    CurveApprox::empty().with_points(points)
}

/// Approximating the same curve over the same range a second time, through
/// the same cache, gives the same points and takes them from the cache: the
/// cache is left as it was.
pub proof fn lemma_approx_is_cached(
    cache: Map<CacheKey, Seq<int>>,
    curve: Curve,
    range: RangeOnPath,
    step: int,
)
    ensures
        ({
            let (first, after_first) = curve_approx_outcome(cache, curve, range, step);
            let (second, after_second) = curve_approx_outcome(after_first, curve, range, step);
            &&& after_first.contains_key(CacheKey { curve: curve.global_form, range })
            &&& second == first
            &&& after_second == after_first
        }),
{
}

/// An approximation never holds a bound of the range it covers: every
/// sample is a curve parameter strictly between the two ends of the range.
pub proof fn lemma_approx_excludes_bounds(curve: Curve, range: RangeOnPath, step: int)
    requires
        step > 0,
    ensures
        forall|i: int|
            0 <= i < global_curve_samples(curve, range, step).len() ==> {
                let t = #[trigger] global_curve_samples(curve, range, step)[i];
                (range.start < t < range.end) || (range.end < t < range.start)
            },
{
    lemma_samples_exclude_bounds(range.start as int, range.end as int, step);
}

/// A line on a flat surface needs no samples: its approximation is empty.
pub proof fn lemma_line_on_flat_surface_is_empty(curve: Curve, range: RangeOnPath, step: int)
    requires
        curve.path is Line,
        curve.surface.u is Line,
    ensures
        global_curve_samples(curve, range, step) == Seq::<int>::empty(),
{
}

} // verus!
