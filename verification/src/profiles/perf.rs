//! How long resolutions take, from measured samples.

use vstd::prelude::*;
use vstd::relations::{sorted_by, total_ordering};
use crate::profiles::model::{ResolverPerfResult, ResolverPerfResultView};

verus! {

/// Samples in ascending order.
pub open spec fn ascending(s: Seq<u64>) -> Seq<u64> {
    s.sort_by(|a: u64, b: u64| a <= b)
}

/// The position of a percentile among `n` ascending samples.
pub open spec fn percentile_at(n: int, percent: int) -> int {
    ((n - 1) * percent) / 100
}

/// What samples, in microseconds, come to.
pub open spec fn summary(s: Seq<u64>) -> ResolverPerfResultView {
    let n = s.len() as int;
    ResolverPerfResultView {
        iterations: n as usize,
        p50_micros: if n == 0 { 0 } else { ascending(s)[percentile_at(n, 50)] },
        p95_micros: if n == 0 { 0 } else { ascending(s)[percentile_at(n, 95)] },
        p99_micros: if n == 0 { 0 } else { ascending(s)[percentile_at(n, 99)] },
        max_micros: if n == 0 { 0 } else { ascending(s)[n - 1] },
    }
}

/// Sorts samples by insertion.
fn sort_samples(samples: &Vec<u64>) -> (r: Vec<u64>)
    ensures
        r@ == ascending(samples@),
{
    let ghost leq = |a: u64, b: u64| a <= b;
    let mut out: Vec<u64> = Vec::new();
    let mut i: usize = 0;
    assert(samples@.subrange(0, 0) =~= Seq::empty());
    while i < samples.len()
        invariant
            i <= samples@.len(),
            out@.len() == i,
            forall|a: int, b: int| 0 <= a < b < out@.len() ==> out@[a] <= out@[b],
            out@.to_multiset() == samples@.subrange(0, i as int).to_multiset(),
        decreases samples.len() - i,
    {
        let x: u64 = samples[i];
        let mut p: usize = 0;
        while p < out.len() && out[p] <= x
            invariant
                p <= out@.len(),
                forall|a: int| 0 <= a < p ==> out@[a] <= x,
            ensures
                p <= out@.len(),
                forall|a: int| 0 <= a < p ==> out@[a] <= x,
                p < out@.len() ==> x < out@[p as int],
            decreases out.len() - p,
        {
            p = p + 1;
        }
        let ghost before = out@;
        out.insert(p, x);
        proof {
            before.to_multiset_ensures();
            vstd::seq_lib::to_multiset_insert(before, p as int, x);
            let s = samples@.subrange(0, i as int);
            assert(samples@.subrange(0, i + 1) =~= s.push(x));
            s.to_multiset_ensures();
        }
        i = i + 1;
    }
    assert(samples@.subrange(0, i as int) =~= samples@);
    proof {
        assert(total_ordering(leq));
        samples@.lemma_sort_by_ensures(leq);
        assert(sorted_by(out@, leq));
        vstd::seq_lib::lemma_sorted_unique(out@, samples@.sort_by(leq), leq);
    }
    out
}

fn percentile(sorted: &Vec<u64>, percent: u8) -> (r: u64)
    requires
        sorted@.len() > 0,
        percent <= 100,
    ensures
        r == sorted@[percentile_at(sorted@.len() as int, percent as int)],
{
    let n: u128 = sorted.len() as u128;
    proof {
        let m = sorted@.len() - 1;
        assert(m * percent <= m * 100) by (nonlinear_arith)
            requires
                percent <= 100,
                m >= 0,
        ;
        assert(0 <= m * percent) by (nonlinear_arith)
            requires
                0 <= percent,
                m >= 0,
        ;
    }
    let i: usize = ((n - 1) * percent as u128 / 100) as usize;
    sorted[i]
}

/// What measured samples, in microseconds, come to.
pub fn summarize_samples(samples: &Vec<u64>) -> (r: ResolverPerfResult)
    ensures
        r@ == summary(samples@),
{
    let sorted = sort_samples(samples);
    proof {
        samples@.lemma_sort_by_ensures(|a: u64, b: u64| a <= b);
        sorted@.to_multiset_ensures();
        samples@.to_multiset_ensures();
        assert(sorted@.len() == samples@.len());
    }
    if sorted.len() == 0 {
        return ResolverPerfResult {
            iterations: 0,
            p50_micros: 0,
            p95_micros: 0,
            p99_micros: 0,
            max_micros: 0,
        };
    }
    ResolverPerfResult {
        iterations: sorted.len(),
        p50_micros: percentile(&sorted, 50),
        p95_micros: percentile(&sorted, 95),
        p99_micros: percentile(&sorted, 99),
        max_micros: sorted[sorted.len() - 1],
    }
}

/// Higher percentiles are no smaller, and none is above the largest sample.
pub proof fn percentiles_ascend(s: Seq<u64>)
    requires
        s.len() > 0,
    ensures
        summary(s).p50_micros <= summary(s).p95_micros,
        summary(s).p95_micros <= summary(s).p99_micros,
        summary(s).p99_micros <= summary(s).max_micros,
{
    let leq = |a: u64, b: u64| a <= b;
    assert(total_ordering(leq));
    s.lemma_sort_by_ensures(leq);
    let t = ascending(s);
    t.to_multiset_ensures();
    s.to_multiset_ensures();
    assert(t.len() == s.len());
    let n = s.len() as int;
    assert(forall|a: int, b: int| 0 <= a < b < n ==> leq(#[trigger] t[a], #[trigger] t[b]));
    assert(0 <= percentile_at(n, 50) <= percentile_at(n, 95) <= percentile_at(n, 99) <= n - 1);
}

/// Whether samples are others in ascending order.
pub open spec fn is_ordered_form(t: Seq<u64>, s: Seq<u64>) -> bool {
    &&& t.to_multiset() == s.to_multiset()
    &&& t.len() == s.len()
    &&& forall|i: int, j: int| 0 <= i <= j < t.len() ==> t[i] <= t[j]
}

/// The figures of a measurement are samples of it: the percentiles those that stand so far into
/// the samples once they are in ascending order, the largest the last of them; all of them are
/// counted, and without samples every figure is nought.
pub proof fn percentiles_are_samples(s: Seq<u64>)
    ensures
        summary(s).iterations == s.len() as usize,
        s.len() == 0 ==> summary(s).p50_micros == 0 && summary(s).p95_micros == 0 && summary(
            s,
        ).p99_micros == 0 && summary(s).max_micros == 0,
        s.len() > 0 ==> exists|t: Seq<u64>|
            {
                &&& #[trigger] is_ordered_form(t, s)
                &&& summary(s).p50_micros == t[(t.len() - 1) * 50 / 100]
                &&& summary(s).p95_micros == t[(t.len() - 1) * 95 / 100]
                &&& summary(s).p99_micros == t[(t.len() - 1) * 99 / 100]
                &&& summary(s).max_micros == t[t.len() - 1]
            },
{
    let leq = |a: u64, b: u64| a <= b;
    assert(total_ordering(leq));
    let t = ascending(s);
    s.lemma_sort_by_ensures(leq);
    s.to_multiset_ensures();
    t.to_multiset_ensures();
    assert(t.len() == s.len());
    assert forall|i: int, j: int| 0 <= i <= j < t.len() implies t[i] <= t[j] by {
        if i < j {
            assert(leq(t[i], t[j]));
        }
    }
    assert(is_ordered_form(t, s));
}

} // verus!
