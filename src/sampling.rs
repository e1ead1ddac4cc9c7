//! Sampling of a parameter range at a fixed spacing

use vstd::prelude::*;
use vstd::arithmetic::div_mod::{lemma_fundamental_div_mod, lemma_fundamental_div_mod_converse_mod};

verus! {

/// The smallest multiple of `step` that is greater than `lo`
pub open spec fn first_multiple_above(lo: int, step: int) -> int {
    lo - lo % step + step
}

/// The multiples of `step`, from `x` up, that are less than `hi`
pub open spec fn multiples_from(x: int, hi: int, step: int) -> Seq<int>
    decreases (if x < hi {
        hi - x
    } else {
        0
    }),
{
    if x >= hi || step <= 0 {
        Seq::empty()
    } else {
        seq![x] + multiples_from(x + step, hi, step)
    }
}

/// The multiples of `step` strictly between `lo` and `hi`, in ascending order
pub open spec fn samples_between(lo: int, hi: int, step: int) -> Seq<int> {
    multiples_from(first_multiple_above(lo, step), hi, step)
}

/// The multiples of `step` strictly between the ends of a range, in order
/// from `start` towards `end`
pub open spec fn range_samples(start: int, end: int, step: int) -> Seq<int> {
    if start <= end {
        samples_between(start, end, step)
    } else {
        samples_between(end, start, step).reverse()
    }
}

/// `lo % step`, for an integer of either sign
fn euclidean_rem(lo: i64, step: u64) -> (r: u64)
    requires
        step > 0,
    ensures
        r == lo as int % step as int,
{
    if lo >= 0 {
        (lo as u64) % step
    } else {
        let n: u64 = (-(lo as i128)) as u64;
        let m: u64 = n % step;
        proof {
            lemma_fundamental_div_mod(n as int, step as int);
            let q = n as int / step as int;
            if m == 0 {
                assert(lo as int == (-q) * step as int + 0) by (nonlinear_arith)
                    requires
                        n as int == step as int * q + m as int,
                        m == 0,
                        lo as int == -(n as int),
                ;
                lemma_fundamental_div_mod_converse_mod(lo as int, step as int, -q, 0);
            } else {
                assert(lo as int == (-q - 1) * step as int + (step - m)) by (nonlinear_arith)
                    requires
                        n as int == step as int * q + m as int,
                        lo as int == -(n as int),
                ;
                lemma_fundamental_div_mod_converse_mod(
                    lo as int,
                    step as int,
                    -q - 1,
                    step - m,
                );
            }
        }
        if m == 0 {
            0
        } else {
            step - m
        }
    }
}

/// Every multiple of `step` that lies strictly between `lo` and `hi`, in
/// ascending order
///
/// The bounds themselves are never part of the result.
pub fn sample_between(lo: i64, hi: i64, step: u64) -> (r: Vec<i64>)
    requires
        step > 0,
    ensures
        r@.map_values(|x: i64| x as int) == samples_between(lo as int, hi as int, step as int),
{
    if lo >= hi {
        return Vec::new();
    }
    let rem = euclidean_rem(lo, step);
    let mut x: i128 = lo as i128 - rem as i128 + step as i128;
    let ghost first = x as int;
    let mut r: Vec<i64> = Vec::new();
    proof {
        assert(r@.map_values(|x: i64| x as int) =~= Seq::<int>::empty());
    }
    while x < hi as i128
        invariant
            step > 0,
            first == first_multiple_above(lo as int, step as int),
            lo < x,
            x <= hi as int + step as int,
            r@.map_values(|v: i64| v as int) + multiples_from(x as int, hi as int, step as int)
                == multiples_from(first, hi as int, step as int),
        decreases hi as int + step as int - x,
    {
        let ghost before = r@.map_values(|v: i64| v as int);
        r.push(x as i64);
        proof {
            assert(r@.map_values(|v: i64| v as int) =~= before.push(x as int));
            assert(multiples_from(x as int, hi as int, step as int) == seq![x as int]
                + multiples_from(x as int + step as int, hi as int, step as int));
            assert(before + multiples_from(x as int, hi as int, step as int) =~= before.push(
                x as int,
            ) + multiples_from(x as int + step as int, hi as int, step as int));
        }
        x = x + step as i128;
    }
    proof {
        assert(multiples_from(x as int, hi as int, step as int) == Seq::<int>::empty());
        assert(r@.map_values(|v: i64| v as int) =~= r@.map_values(|v: i64| v as int)
            + Seq::<int>::empty());
    }
    r
}

/// Every multiple of `step` strictly between `start` and `end`, in order
/// from `start` towards `end`
pub fn sample_range(start: i64, end: i64, step: u64) -> (r: Vec<i64>)
    requires
        step > 0,
    ensures
        r@.map_values(|x: i64| x as int) == range_samples(start as int, end as int, step as int),
{
    if start <= end {
        sample_between(start, end, step)
    } else {
        let ascending = sample_between(end, start, step);
        let mut r: Vec<i64> = Vec::new();
        let mut i: usize = ascending.len();
        while i > 0
            invariant
                i <= ascending@.len(),
                r@.map_values(|x: i64| x as int) == ascending@.map_values(
                    |x: i64| x as int,
                ).subrange(i as int, ascending@.len() as int).reverse(),
            decreases i,
        {
            i = i - 1;
            let ghost before = r@.map_values(|x: i64| x as int);
            let ghost asc = ascending@.map_values(|x: i64| x as int);
            r.push(ascending[i]);
            proof {
                assert(r@.map_values(|x: i64| x as int) =~= before.push(asc[i as int]));
                assert(asc.subrange(i as int, asc.len() as int).reverse() =~= asc.subrange(
                    i + 1,
                    asc.len() as int,
                ).reverse().push(asc[i as int]));
            }
        }
        proof {
            assert(ascending@.map_values(|x: i64| x as int).subrange(0, ascending@.len() as int)
                =~= ascending@.map_values(|x: i64| x as int));
        }
        r
    }
}

/// Every multiple from `x` up lies in `[x, hi)`
proof fn lemma_multiples_from_bounds(x: int, hi: int, step: int)
    ensures
        forall|i: int|
            0 <= i < multiples_from(x, hi, step).len() ==> x <= #[trigger] multiples_from(
                x,
                hi,
                step,
            )[i] < hi,
    decreases (if x < hi {
        hi - x
    } else {
        0
    }),
{
    if !(x >= hi || step <= 0) {
        lemma_multiples_from_bounds(x + step, hi, step);
        let tail = multiples_from(x + step, hi, step);
        assert forall|i: int| 0 <= i < multiples_from(x, hi, step).len() implies x
            <= #[trigger] multiples_from(x, hi, step)[i] < hi by {
            if i > 0 {
                assert(multiples_from(x, hi, step)[i] == tail[i - 1]);
            }
        }
    }
}

/// Sampling never returns a bound of the range: every sample lies strictly
/// between `start` and `end`.
pub proof fn lemma_samples_exclude_bounds(start: int, end: int, step: int)
    requires
        step > 0,
    ensures
        forall|i: int|
            0 <= i < range_samples(start, end, step).len() ==> {
                let x = #[trigger] range_samples(start, end, step)[i];
                (start < x < end) || (end < x < start)
            },
{
    let lo = if start <= end { start } else { end };
    let hi = if start <= end { end } else { start };
    assert(0 <= lo % step < step) by {
        lemma_fundamental_div_mod(lo, step);
    }
    lemma_multiples_from_bounds(first_multiple_above(lo, step), hi, step);
    let asc = samples_between(lo, hi, step);
    assert forall|i: int| 0 <= i < range_samples(start, end, step).len() implies {
        let x = #[trigger] range_samples(start, end, step)[i];
        (start < x < end) || (end < x < start)
    } by {
        if start > end {
            assert(range_samples(start, end, step)[i] == asc[asc.len() - 1 - i]);
        }
    }
}

/// The multiples from `x` up are `x`, `x + step`, ..., and the first one
/// left out is not below `hi`
proof fn lemma_multiples_from_shape(x: int, hi: int, step: int)
    requires
        step > 0,
    ensures
        forall|i: int|
            0 <= i < multiples_from(x, hi, step).len() ==> #[trigger] multiples_from(x, hi, step)[i]
                == x + i * step && x + i * step < hi,
        x + multiples_from(x, hi, step).len() * step >= hi,
    decreases (if x < hi {
        hi - x
    } else {
        0
    }),
{
    if x < hi {
        lemma_multiples_from_shape(x + step, hi, step);
        let tail = multiples_from(x + step, hi, step);
        let all = multiples_from(x, hi, step);
        assert forall|i: int| 0 <= i < all.len() implies #[trigger] all[i] == x + i * step && x + i
            * step < hi by {
            if i > 0 {
                assert(all[i] == tail[i - 1]);
                assert(x + step + (i - 1) * step == x + i * step) by (nonlinear_arith);
            }
        }
        assert(x + step + tail.len() * step == x + all.len() * step) by (nonlinear_arith)
            requires
                all.len() == tail.len() + 1,
        ;
    }
}

/// Every multiple of `step` strictly between `lo` and `hi` is a sample, and
/// every sample is such a multiple
proof fn lemma_samples_are_the_multiples(lo: int, hi: int, step: int)
    requires
        step > 0,
    ensures
        forall|y: int|
            #![trigger samples_between(lo, hi, step).contains(y)]
            samples_between(lo, hi, step).contains(y) <==> (lo < y < hi && y % step == 0),
        samples_between(lo, hi, step).no_duplicates(),
{
    let first = first_multiple_above(lo, step);
    let s = samples_between(lo, hi, step);
    lemma_multiples_from_shape(first, hi, step);
    lemma_fundamental_div_mod(lo, step);
    let q = lo / step;
    assert(first == (q + 1) * step) by (nonlinear_arith)
        requires
            lo == step * q + lo % step,
            first == lo - lo % step + step,
    ;
    assert forall|y: int| #![trigger s.contains(y)] s.contains(y) <==> (lo < y < hi && y % step
        == 0) by {
        if s.contains(y) {
            let i = choose|i: int| 0 <= i < s.len() && s[i] == y;
            assert(s[i] == first + i * step);
            assert(y == (q + 1 + i) * step) by (nonlinear_arith)
                requires
                    y == first + i * step,
                    first == (q + 1) * step,
            ;
            lemma_fundamental_div_mod_converse_mod(y, step, q + 1 + i, 0);
            assert(first > lo);
            assert(i * step >= 0) by (nonlinear_arith)
                requires
                    i >= 0,
                    step > 0,
            ;
        }
        if lo < y < hi && y % step == 0 {
            lemma_fundamental_div_mod(y, step);
            let k = y / step;
            assert(k >= q + 1) by (nonlinear_arith)
                requires
                    y == step * k,
                    lo == step * q + lo % step,
                    0 <= lo % step < step,
                    y > lo,
                    step > 0,
            ;
            let i = k - q - 1;
            assert(y == first + i * step) by (nonlinear_arith)
                requires
                    y == step * k,
                    first == (q + 1) * step,
                    i == k - q - 1,
            ;
            if i >= s.len() {
                assert(first + i * step >= first + s.len() * step) by (nonlinear_arith)
                    requires
                        i >= s.len(),
                        step > 0,
                ;
            }
            assert(s[i] == y);
        }
    }
    assert forall|i: int, j: int| 0 <= i < s.len() && 0 <= j < s.len() && i != j implies s[i]
        != s[j] by {
        assert(s[i] == first + i * step);
        assert(s[j] == first + j * step);
        if s[i] == s[j] {
            assert(i == j) by (nonlinear_arith)
                requires
                    first + i * step == first + j * step,
                    step > 0,
            ;
        }
    }
}

/// Sampling at a spacing that divides another gives no fewer points: halving
/// the spacing, in particular, never lowers the number of samples.
pub proof fn lemma_finer_step_gives_no_fewer_samples(lo: int, hi: int, step: int, finer: int)
    requires
        finer > 0,
        step > 0,
        step % finer == 0,
    ensures
        samples_between(lo, hi, step).len() <= samples_between(lo, hi, finer).len(),
{
    let coarse = samples_between(lo, hi, step);
    let fine = samples_between(lo, hi, finer);
    lemma_samples_are_the_multiples(lo, hi, step);
    lemma_samples_are_the_multiples(lo, hi, finer);
    lemma_fundamental_div_mod(step, finer);
    let c = step / finer;
    assert forall|y: int| coarse.to_set().contains(y) implies fine.to_set().contains(y) by {
        assert(coarse.contains(y));
        lemma_fundamental_div_mod(y, step);
        let k = y / step;
        assert(y == (k * c) * finer + 0) by (nonlinear_arith)
            requires
                y == step * k + y % step,
                y % step == 0,
                step == finer * c + step % finer,
                step % finer == 0,
        ;
        lemma_fundamental_div_mod_converse_mod(y, finer, k * c, 0);
        assert(fine.contains(y));
    }
    coarse.unique_seq_to_set();
    fine.unique_seq_to_set();
    vstd::set_lib::lemma_len_subset(coarse.to_set(), fine.to_set());
}

/// Halving an even spacing never lowers the number of samples.
pub proof fn lemma_halved_step_gives_no_fewer_samples(lo: int, hi: int, step: int)
    requires
        step > 0,
        step % 2 == 0,
    ensures
        samples_between(lo, hi, step).len() <= samples_between(lo, hi, step / 2).len(),
{
    lemma_fundamental_div_mod(step, 2);
    lemma_fundamental_div_mod_converse_mod(step, step / 2, 2, 0);
    lemma_finer_step_gives_no_fewer_samples(lo, hi, step, step / 2);
}

} // verus!
