//! Joining a cycle to another

use itertools::Itertools;
use vstd::prelude::*;
use vstd::arithmetic::div_mod::lemma_fundamental_div_mod;

use crate::geometry::{CurveBoundary, SurfacePath};
use crate::objects::{Cycle, GlobalEdge, HalfEdge, Services};
use crate::storage::Handle;

verus! {

/// An inclusive range of positions in a cycle
///
/// Positions are taken modulo the length of the cycle, so a range may cross
/// the seam where the cycle wraps around. A range whose end lies before its
/// start covers no position.
#[derive(Clone, Copy, Debug, PartialEq, Eq, Hash, Structural)]
pub struct IndexRange {
    pub start: usize,
    pub end: usize,
}

/// `end - start`, which two joined ranges must agree in
pub open spec fn range_span(r: IndexRange) -> int {
    r.end - r.start
}

/// The number of positions a range covers
pub open spec fn range_count(r: IndexRange) -> int {
    if r.end >= r.start {
        r.end - r.start + 1
    } else {
        0
    }
}

/// Why two cycles could not be joined
#[derive(Clone, Copy, Debug, PartialEq, Eq, Hash, Structural)]
pub enum JoinError {
    /// The two ranges differ in length
    RangeLengthMismatch,
    /// A range covers positions of a cycle that has no half-edges
    EmptyCycle,
}

/// Relies on itertools' `circular_tuple_windows`: over `0..n` it yields
/// `(i, (i + 1) % n)` for each `i` from `0` up, `n` pairs in all.
#[verifier::external_body]
fn circular_pairs(n: usize) -> (r: Vec<(usize, usize)>)
    ensures
        r@.len() == n,
        forall|i: int| 0 <= i < n ==> #[trigger] r@[i] == (i as usize, ((i + 1) % n as int) as usize),
{
    (0..n).circular_tuple_windows().collect()
}

/// The half-edge that `add_joined_edges` makes of a window of two
/// consecutive inputs: it lies on the curve of `edge`, with the path and
/// boundary given with it, and starts where `prev` starts
pub open spec fn joined_edge(
    prev: (HalfEdge, SurfacePath, CurveBoundary),
    edge: (HalfEdge, SurfacePath, CurveBoundary),
    global_form: Handle,
) -> HalfEdge {
    HalfEdge {
        path: edge.1,
        boundary: edge.2,
        curve: edge.0.curve,
        start_vertex: prev.0.start_vertex,
        global_form,
    }
}

/// One step of `join_to`: the half-edge at `i` takes the curve of the
/// half-edge `j` of `other` and the start vertex of the one after it, and the
/// half-edge after `i` starts at the start vertex of `j`
pub open spec fn join_step(
    cycle: Seq<HalfEdge>,
    unjoined: Seq<HalfEdge>,
    other: Seq<HalfEdge>,
    i: int,
    j: int,
) -> Seq<HalfEdge> {
    let n = cycle.len() as int;
    let m = other.len() as int;
    let this_joined = HalfEdge {
        curve: other[j].curve,
        start_vertex: other[(j + 1) % m].start_vertex,
        ..unjoined[i]
    };
    let c = cycle.update(i, this_joined);
    c.update((i + 1) % n, HalfEdge { start_vertex: other[j].start_vertex, ..c[(i + 1) % n] })
}

/// The first `k` steps of joining `unjoined` to `other`, from `start` and
/// `other_start` on
pub open spec fn join_steps(
    unjoined: Seq<HalfEdge>,
    other: Seq<HalfEdge>,
    start: int,
    other_start: int,
    k: nat,
) -> Seq<HalfEdge>
    decreases k,
{
    if k == 0 {
        unjoined
    } else {
        let prev = join_steps(unjoined, other, start, other_start, (k - 1) as nat);
        join_step(
            prev,
            unjoined,
            other,
            (start + k - 1) % unjoined.len() as int,
            (other_start + k - 1) % other.len() as int,
        )
    }
}

proof fn lemma_join_steps_len(
    unjoined: Seq<HalfEdge>,
    other: Seq<HalfEdge>,
    start: int,
    other_start: int,
    k: nat,
)
    requires
        unjoined.len() > 0,
        other.len() > 0,
    ensures
        join_steps(unjoined, other, start, other_start, k).len() == unjoined.len(),
    decreases k,
{
    if k > 0 {
        lemma_join_steps_len(unjoined, other, start, other_start, (k - 1) as nat);
    }
}

impl Cycle {
    /// Create a cycle that holds the half-edges of this one, followed by
    /// half-edges joined to `edges`
    ///
    /// For each input and the one before it (the last one coming before the
    /// first), a new half-edge lies on the curve of the input's half-edge, with
    /// the path and boundary given with it, and starts at the start vertex of
    /// the half-edge before. The new half-edges follow in the order of the
    /// windows, the first of which ends at the second input. Each gets a new
    /// global edge, from its start vertex to that of the input's half-edge.
    pub fn add_joined_edges(
        &self,
        edges: Vec<(HalfEdge, SurfacePath, CurveBoundary)>,
        services: &mut Services,
    ) -> (r: Cycle)
        ensures
            r@.len() == self@.len() + edges@.len(),
            r@.subrange(0, self@.len() as int) == self@,
            forall|k: int|
                0 <= k < edges@.len() ==> {
                    let e = #[trigger] r@[self@.len() + k];
                    let prev = edges@[k];
                    let cur = edges@[(k + 1) % edges@.len() as int];
                    &&& e == joined_edge(prev, cur, e.global_form)
                    &&& e.global_form.id == old(services).global_edges@.len() + k
                    &&& final(services).global_edges@[e.global_form.id as int] == (GlobalEdge {
                        a: prev.0.start_vertex,
                        b: cur.0.start_vertex,
                    })
                },
            final(services).global_edges@.len() == old(services).global_edges@.len()
                + edges@.len(),
            final(services).global_edges@.subrange(0, old(services).global_edges@.len() as int)
                == old(services).global_edges@,
            final(services).vertices@ == old(services).vertices@,
            final(services).curves@ == old(services).curves@,
            final(services).surfaces@ == old(services).surfaces@,
            final(services).cycles@ == old(services).cycles@,
            final(services).regions@ == old(services).regions@,
            final(services).faces@ == old(services).faces@,
    {
        let n = edges.len();
        let windows = circular_pairs(n);
        let mut half_edges: Vec<HalfEdge> = Vec::new();
        let mut i: usize = 0;
        while i < self.half_edges.len()
            invariant
                i <= self@.len(),
                half_edges@ == self@.subrange(0, i as int),
            decreases self@.len() - i,
        {
            half_edges.push(self.half_edges[i]);
            i = i + 1;
            proof {
                assert(half_edges@ =~= self@.subrange(0, i as int));
            }
        }
        let ghost base = old(services).global_edges@.len();
        let mut k: usize = 0;
        while k < n
            invariant
                n == edges@.len(),
                windows@.len() == n,
                forall|w: int|
                    0 <= w < n ==> #[trigger] windows@[w] == (w as usize, ((w + 1) % n as int) as usize),
                k <= n,
                half_edges@.len() == self@.len() + k,
                half_edges@.subrange(0, self@.len() as int) == self@,
                forall|w: int|
                    0 <= w < k ==> {
                        let e = #[trigger] half_edges@[self@.len() + w];
                        let prev = edges@[w];
                        let cur = edges@[(w + 1) % n as int];
                        &&& e == joined_edge(prev, cur, e.global_form)
                        &&& e.global_form.id == base + w
                        &&& services.global_edges@[e.global_form.id as int] == (GlobalEdge {
                            a: prev.0.start_vertex,
                            b: cur.0.start_vertex,
                        })
                    },
                services.global_edges@.len() == base + k,
                services.global_edges@.subrange(0, base as int) == old(services).global_edges@,
                services.vertices@ == old(services).vertices@,
                services.curves@ == old(services).curves@,
                services.surfaces@ == old(services).surfaces@,
                services.cycles@ == old(services).cycles@,
                services.regions@ == old(services).regions@,
                services.faces@ == old(services).faces@,
            decreases n - k,
        {
            let (p, c) = windows[k];
            let prev = edges[p].0;
            let cur = &edges[c];
            let global_form = services.global_edges.insert(
                GlobalEdge { a: prev.start_vertex, b: cur.0.start_vertex },
            );
            let joined = HalfEdge {
                path: cur.1,
                boundary: cur.2,
                curve: cur.0.curve,
                start_vertex: prev.start_vertex,
                global_form,
            };
            half_edges.push(joined);
            proof {
                assert(half_edges@.subrange(0, self@.len() as int) =~= self@);
                assert(services.global_edges@.subrange(0, base as int) =~= old(
                    services,
                ).global_edges@);
            }
            k = k + 1;
        }
        Cycle::new(half_edges)
    }

    /// Join this cycle to `other` over the given ranges of positions
    ///
    /// For each pair of matched positions, in order, the half-edge of this
    /// cycle takes the curve of the matched half-edge of `other` and, as its
    /// start vertex, the start vertex of the half-edge after that one; the
    /// half-edge after it takes the start vertex of the matched half-edge.
    /// Nothing checks that the matched half-edges coincide.
    ///
    /// Fails if the ranges differ in length, or if they cover positions of an
    /// empty cycle.
    pub fn join_to(&self, other: &Cycle, range: IndexRange, other_range: IndexRange) -> (r: Result<
        Cycle,
        JoinError,
    >)
        ensures
            (r == Err::<Cycle, JoinError>(JoinError::RangeLengthMismatch)) <==> range_span(range)
                != range_span(other_range),
            (r == Err::<Cycle, JoinError>(JoinError::EmptyCycle)) <==> (range_span(range)
                == range_span(other_range) && range_count(range) > 0 && (self@.len() == 0
                || other@.len() == 0)),
            r matches Ok(c) ==> c@ == join_steps(
                self@,
                other@,
                range.start as int,
                other_range.start as int,
                range_count(range) as nat,
            ),
    {
        if (range.end as i128 - range.start as i128) != (other_range.end as i128
            - other_range.start as i128) {
            return Err(JoinError::RangeLengthMismatch);
        }
        let count: u128 = if range.end >= range.start {
            (range.end - range.start) as u128 + 1
        } else {
            0
        };
        let n = self.half_edges.len();
        let m = other.half_edges.len();
        if count > 0 && (n == 0 || m == 0) {
            return Err(JoinError::EmptyCycle);
        }
        let mut cycle: Vec<HalfEdge> = Vec::new();
        let mut i: usize = 0;
        while i < n
            invariant
                n == self@.len(),
                i <= n,
                cycle@ == self@.subrange(0, i as int),
            decreases n - i,
        {
            cycle.push(self.half_edges[i]);
            i = i + 1;
            proof {
                assert(cycle@ =~= self@.subrange(0, i as int));
            }
        }
        proof {
            assert(cycle@ =~= self@);
        }
        let mut k: u128 = 0;
        while k < count
            invariant
                n == self@.len(),
                m == other@.len(),
                count == range_count(range),
                count > 0 ==> n > 0 && m > 0,
                range_span(range) == range_span(other_range),
                k <= count,
                cycle@ == join_steps(
                    self@,
                    other@,
                    range.start as int,
                    other_range.start as int,
                    k as nat,
                ),
            decreases count - k,
        {
            proof {
                lemma_join_steps_len(
                    self@,
                    other@,
                    range.start as int,
                    other_range.start as int,
                    k as nat,
                );
            }
            let i = ((range.start as u128 + k) % (n as u128)) as usize;
            let j = ((other_range.start as u128 + k) % (m as u128)) as usize;
            let half_edge = self.half_edges[i];
            let half_edge_other = other.half_edges[j];
            let vertex_a = other.half_edges[(j + 1) % m].start_vertex;
            let vertex_b = half_edge_other.start_vertex;
            let this_joined = half_edge.replace_curve(half_edge_other.curve).replace_start_vertex(
                vertex_a,
            );
            cycle.set(i, this_joined);
            let next = (i + 1) % n;
            let next_joined = cycle[next].replace_start_vertex(vertex_b);
            cycle.set(next, next_joined);
            k = k + 1;
        }
        Ok(Cycle::new(cycle))
    }
}

/// Two positions less than a full turn apart are different positions of the
/// cycle
proof fn lemma_positions_differ(a: int, b: int, n: int)
    requires
        n > 0,
        a < b < a + n,
    ensures
        a % n != b % n,
{
    lemma_fundamental_div_mod(a, n);
    lemma_fundamental_div_mod(b, n);
    if a % n == b % n {
        assert(false) by (nonlinear_arith)
            requires
                a == n * (a / n) + a % n,
                b == n * (b / n) + b % n,
                a % n == b % n,
                a < b < a + n,
                n > 0,
        ;
    }
}

/// Joining over ranges of equal length that cover no position twice leaves,
/// at each matched position, a half-edge on the same curve as the matched
/// half-edge of the other cycle.
pub proof fn lemma_join_shares_curves(
    unjoined: Seq<HalfEdge>,
    other: Seq<HalfEdge>,
    start: int,
    other_start: int,
    count: nat,
)
    requires
        unjoined.len() > 0,
        other.len() > 0,
        count <= unjoined.len(),
    ensures
        forall|k: int|
            0 <= k < count ==> (#[trigger] join_steps(unjoined, other, start, other_start, count)[(
            start + k) % unjoined.len() as int]).curve == other[(other_start + k)
                % other.len() as int].curve,
    decreases count,
{
    let n = unjoined.len() as int;
    let m = other.len() as int;
    if count > 0 {
        let c = (count - 1) as nat;
        lemma_join_shares_curves(unjoined, other, start, other_start, c);
        lemma_join_steps_len(unjoined, other, start, other_start, c);
        let prev = join_steps(unjoined, other, start, other_start, c);
        let cur = join_steps(unjoined, other, start, other_start, count);
        let i = (start + c) % n;
        let j = (other_start + c) % m;
        assert(cur == join_step(prev, unjoined, other, i, j));
        assert forall|k: int| 0 <= k < count implies (#[trigger] cur[(start + k) % n]).curve
            == other[(other_start + k) % m].curve by {
            if k < c {
                lemma_positions_differ(start + k, start + c, n);
            }
        }
    }
}

} // verus!
