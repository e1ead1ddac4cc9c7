//! Sketches: flat collections of regions

use vstd::prelude::*;

use crate::objects::{Face, Services};
use crate::storage::Handle;

verus! {

/// Whether the handles are in strictly ascending order, so that each occurs
/// once
pub open spec fn sorted_handles(s: Seq<Handle>) -> bool {
    forall|i: int, j: int| 0 <= i < j < s.len() ==> (#[trigger] s[i]).id < (#[trigger] s[j]).id
}

/// A 2-dimensional shape: a set of regions, which need not touch
pub struct Sketch {
    regions: Vec<Handle>,
}

impl Sketch {
    /// The regions, in ascending order of their handles
    pub closed spec fn view(&self) -> Seq<Handle> {
        self.regions@
    }

    /// Each region is held once, in ascending order of the handles
    pub open spec fn wf(&self) -> bool {
        sorted_handles(self@)
    }

    /// Create a sketch of the given regions; a region given more than once
    /// is held once
    pub fn new(regions: Vec<Handle>) -> (r: Sketch)
        ensures
            r.wf(),
            forall|h: Handle| r@.contains(h) <==> regions@.contains(h),
    {
        let mut sorted: Vec<Handle> = Vec::new();
        let mut i: usize = 0;
        while i < regions.len()
            invariant
                i <= regions@.len(),
                sorted_handles(sorted@),
                forall|h: Handle| sorted@.contains(h) <==> regions@.subrange(0, i as int).contains(h),
            decreases regions@.len() - i,
        {
            let h = regions[i];
            let mut p: usize = 0;
            while p < sorted.len() && sorted[p].id < h.id
                invariant
                    p <= sorted@.len(),
                    forall|q: int| 0 <= q < p ==> (#[trigger] sorted@[q]).id < h.id,
                decreases sorted@.len() - p,
            {
                p = p + 1;
            }
            let ghost before = sorted@;
            if p < sorted.len() && sorted[p].id == h.id {
                assert(sorted@[p as int] == h);
                assert(before.contains(h));
                assert forall|x: Handle| sorted@.contains(x) <==> before.contains(x) || x == h by {}
            } else {
                sorted.insert(p, h);
                assert forall|a: int, b: int| 0 <= a < b < sorted@.len() implies (
                #[trigger] sorted@[a]).id < (#[trigger] sorted@[b]).id by {
                    if b == p {
                        assert(sorted@[a] == before[a]);
                    } else if a == p {
                        assert(sorted@[b] == before[b - 1]);
                        if b - 1 > p {
                            assert(before[p as int].id < before[b - 1].id);
                        }
                    } else if a > p {
                        assert(sorted@[a] == before[a - 1]);
                    }
                }
                assert forall|x: Handle| sorted@.contains(x) implies before.contains(x) || x == h by {
                    let q = choose|q: int| 0 <= q < sorted@.len() && #[trigger] sorted@[q] == x;
                    if q < p {
                        assert(before[q] == x);
                    } else if q > p {
                        assert(before[q - 1] == x);
                    }
                }
                assert forall|x: Handle| before.contains(x) implies sorted@.contains(x) by {
                    let q = choose|q: int| 0 <= q < before.len() && #[trigger] before[q] == x;
                    if q < p {
                        assert(sorted@[q] == x);
                    } else {
                        assert(sorted@[q + 1] == x);
                    }
                }
                assert(sorted@[p as int] == h);
                assert forall|x: Handle| sorted@.contains(x) <==> before.contains(x) || x == h by {
                    if x == h {
                        assert(sorted@[p as int] == h);
                    }
                }
            }
            let ghost shorter = regions@.subrange(0, i as int);
            let ghost longer = regions@.subrange(0, i + 1);
            assert(longer =~= shorter.push(h));
            assert forall|x: Handle| longer.contains(x) <==> shorter.contains(x) || x == h by {
                if longer.contains(x) {
                    let q = choose|q: int| 0 <= q < longer.len() && #[trigger] longer[q] == x;
                    if q < i {
                        assert(shorter[q] == x);
                    }
                }
                if shorter.contains(x) {
                    let q = choose|q: int| 0 <= q < shorter.len() && #[trigger] shorter[q] == x;
                    assert(longer[q] == x);
                }
                if x == h {
                    assert(longer[i as int] == x);
                }
            }
            assert forall|x: Handle| sorted@.contains(x) <==> longer.contains(x) by {
                assert(sorted@.contains(x) <==> before.contains(x) || x == h);
                assert(before.contains(x) <==> shorter.contains(x));
            }
            i = i + 1;
        }
        assert(regions@.subrange(0, regions@.len() as int) =~= regions@);
        Sketch { regions: sorted }
    }

    /// The regions of the sketch, in ascending order of their handles
    pub fn regions(&self) -> (r: Vec<Handle>)
        ensures
            r@ == self@,
    {
        let mut r: Vec<Handle> = Vec::new();
        let mut i: usize = 0;
        while i < self.regions.len()
            invariant
                i <= self@.len(),
                r@ == self@.subrange(0, i as int),
            decreases self@.len() - i,
        {
            r.push(self.regions[i]);
            i = i + 1;
            proof {
                assert(r@ =~= self@.subrange(0, i as int));
            }
        }
        proof {
            assert(r@ =~= self@);
        }
        r
    }

    /// Place each region of the sketch on `surface`, as a new face
    ///
    /// Returns the handles of the new faces, one per region, in the order of
    /// the regions.
    pub fn faces(&self, surface: Handle, services: &mut Services) -> (r: Vec<Handle>)
        ensures
            r@.len() == self@.len(),
            final(services).faces@.len() == old(services).faces@.len() + self@.len(),
            final(services).faces@.subrange(0, old(services).faces@.len() as int) == old(
                services,
            ).faces@,
            forall|i: int|
                0 <= i < self@.len() ==> (#[trigger] r@[i]).id == old(services).faces@.len() + i
                    && final(services).faces@[r@[i].id as int] == Face::spec_new(
                    surface,
                    self@[i],
                ),
            final(services).vertices@ == old(services).vertices@,
            final(services).global_edges@ == old(services).global_edges@,
            final(services).curves@ == old(services).curves@,
            final(services).surfaces@ == old(services).surfaces@,
            final(services).cycles@ == old(services).cycles@,
            final(services).regions@ == old(services).regions@,
    {
        let ghost base = old(services).faces@.len();
        let mut r: Vec<Handle> = Vec::new();
        let mut i: usize = 0;
        while i < self.regions.len()
            invariant
                i <= self@.len(),
                r@.len() == i,
                services.faces@.len() == base + i,
                services.faces@.subrange(0, base as int) == old(services).faces@,
                forall|j: int|
                    0 <= j < i ==> (#[trigger] r@[j]).id == base + j && services.faces@[r@[j].id as int]
                        == Face::spec_new(surface, self@[j]),
                services.vertices@ == old(services).vertices@,
                services.global_edges@ == old(services).global_edges@,
                services.curves@ == old(services).curves@,
                services.surfaces@ == old(services).surfaces@,
                services.cycles@ == old(services).cycles@,
                services.regions@ == old(services).regions@,
            decreases self@.len() - i,
        {
            let face = services.faces.insert(Face::new(surface, self.regions[i]));
            r.push(face);
            i = i + 1;
            proof {
                assert(services.faces@.subrange(0, base as int) =~= old(services).faces@);
            }
        }
        r
    }
}

} // verus!
