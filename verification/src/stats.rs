//! Statistics aggregator for benchmark sessions.
//!
//! Given a non-empty sequence of execution-time samples (in microseconds),
//! computes the minimum, maximum, arithmetic mean, population standard
//! deviation (dividing by N, since a session is the entire population of its
//! iterations), and the 95th and 99th percentiles by linear interpolation
//! between closest ranks: for percentile `p` over `N` ascending samples, the
//! rank is `p/100 * (N-1)`; the result interpolates between the samples at
//! the floor and ceiling of that rank. Divisions floor, so every statistic
//! is a deterministic integer.

use vstd::prelude::*;
use vstd::seq_lib::*;
use vstd::relations::{sorted_by, total_ordering};
use vstd::multiset::Multiset;
use vstd::arithmetic::div_mod::{lemma_div_is_ordered, lemma_div_multiples_vanish};
use vstd::arithmetic::mul::lemma_mul_inequality;

verus! {

broadcast use vstd::seq_lib::group_to_multiset_ensures, vstd::multiset::group_multiset_axioms;

/// Largest sample value (in microseconds) the aggregator accepts; about
/// eleven days. Keeps every intermediate sum inside machine integers.
pub const SAMPLE_LIMIT: u64 = 1_000_000_000_000;

/// Largest number of samples the aggregator accepts.
pub const SAMPLE_COUNT_LIMIT: usize = 1_000_000;

/// Aggregate latency statistics of one benchmark session, in microseconds.
#[derive(Debug, Clone, Copy, PartialEq, Eq, Structural)]
pub struct BenchmarkStats {
    pub min_us: u64,
    pub max_us: u64,
    pub avg_us: u64,
    pub stddev_us: u64,
    pub p95_us: u64,
    pub p99_us: u64,
}

/// Why a statistics computation failed.
#[derive(Debug, Clone, Copy, PartialEq, Eq, Structural)]
pub enum StatsError {
    /// There were zero samples; a session must never complete without runs.
    EmptyInput,
}

/// Ascending order on samples.
pub open spec fn u64_leq() -> spec_fn(u64, u64) -> bool {
    |x: u64, y: u64| x <= y
}

/// A sequence is sorted ascending.
pub open spec fn sorted(s: Seq<u64>) -> bool {
    forall|i: int, j: int| 0 <= i < j < s.len() ==> s[i] <= s[j]
}

/// The samples sorted ascending.
pub open spec fn sorted_asc(s: Seq<u64>) -> Seq<u64> {
    s.sort_by(u64_leq())
}

/// Sum of the samples.
pub open spec fn sum_of(s: Seq<u64>) -> int {
    s.fold_left(0int, |acc: int, x: u64| acc + x)
}

/// Arithmetic mean of the samples (flooring division).
pub open spec fn mean_of(s: Seq<u64>) -> int
    recommends
        s.len() >= 1,
{
    sum_of(s) / s.len() as int
}

/// Sum of squared deviations of the samples from `mean`.
pub open spec fn sq_dev_sum(s: Seq<u64>, mean: int) -> int {
    s.fold_left(0int, |acc: int, x: u64| acc + (x - mean) * (x - mean))
}

/// Population variance: squared deviations from the floored mean, divided
/// by the number of samples.
pub open spec fn variance_of(s: Seq<u64>) -> int
    recommends
        s.len() >= 1,
{
    sq_dev_sum(s, mean_of(s)) / s.len() as int
}

/// `r` is the integer square root of `v`.
pub open spec fn is_isqrt(r: int, v: int) -> bool {
    &&& 0 <= r
    &&& r * r <= v
    &&& v < (r + 1) * (r + 1)
}

/// Linear interpolation between closest ranks on an ascending sequence:
/// rank `r = p * (len - 1) / 100`; the result is
/// `s[floor(r)] + (r - floor(r)) * (s[ceil(r)] - s[floor(r)])`, carried out
/// in hundredths so that no fraction is needed.
pub open spec fn interp_at(s: Seq<u64>, p: int) -> int
    recommends
        s.len() >= 1,
        0 <= p <= 100,
        sorted(s),
{
    let rank = p * (s.len() - 1);
    let lo = rank / 100;
    let frac = rank % 100;
    if lo + 1 < s.len() {
        s[lo] + frac * (s[lo + 1] - s[lo]) / 100
    } else {
        s[lo] as int
    }
}

/// Percentile `p` of the samples by the linear-interpolation method.
pub open spec fn percentile_of(samples: Seq<u64>, p: int) -> int
    recommends
        samples.len() >= 1,
        0 <= p <= 100,
{
    interp_at(sorted_asc(samples), p)
}

/// The ascending order on samples is a total ordering.
pub proof fn lemma_u64_leq_total()
    ensures
        total_ordering(u64_leq()),
{
    assert forall|x: u64| #[trigger] u64_leq()(x, x) by {}
    assert forall|x: u64, y: u64| #[trigger] u64_leq()(x, y) && #[trigger] u64_leq()(y, x)
        implies x == y by {}
    assert forall|x: u64, y: u64| #[trigger] u64_leq()(x, y) || #[trigger] u64_leq()(y, x) by {}
}

/// Law: sorting is a permutation — the sorted sequence has the same length
/// and the same elements (with multiplicity) as the input, and is sorted.
pub proof fn lemma_sorted_asc_ensures(s: Seq<u64>)
    ensures
        sorted(sorted_asc(s)),
        sorted_asc(s).to_multiset() =~= s.to_multiset(),
        sorted_asc(s).len() == s.len(),
{
    lemma_u64_leq_total();
    s.lemma_sort_by_ensures(u64_leq());
    let t = sorted_asc(s);
    assert forall|i: int, j: int| 0 <= i < j < t.len() implies t[i] <= t[j] by {
        assert(u64_leq()(t[i], t[j]));
    }
    assert(t.to_multiset().len() == s.to_multiset().len());
}

/// Law: the integer square root is unique, so the standard deviation is as
/// deterministic as every other statistic.
pub proof fn lemma_isqrt_unique(a: int, b: int, v: int)
    requires
        is_isqrt(a, v),
        is_isqrt(b, v),
    ensures
        a == b,
{
    if a < b {
        assert((a + 1) * (a + 1) <= b * b) by (nonlinear_arith)
            requires
                0 <= a,
                a + 1 <= b,
        ;
    }
    if b < a {
        assert((b + 1) * (b + 1) <= a * a) by (nonlinear_arith)
            requires
                0 <= b,
                b + 1 <= a,
        ;
    }
}

/// Sorting an already ascending sequence leaves it unchanged.
pub proof fn lemma_sorted_asc_of_sorted(s: Seq<u64>)
    requires
        sorted(s),
    ensures
        sorted_asc(s) == s,
{
    lemma_u64_leq_total();
    s.lemma_sort_by_ensures(u64_leq());
    assert forall|i: int, j: int| 0 <= i < j < s.len()
        implies #[trigger] u64_leq()(s[i], s[j]) by {
        assert(s[i] <= s[j]);
    }
    lemma_sorted_unique(s, sorted_asc(s), u64_leq());
    assert(sorted_asc(s) =~= s);
}

/// Law: every percentile of a single-sample sequence equals that sample.
pub proof fn lemma_percentile_single_sample(s: Seq<u64>, p: int)
    requires
        s.len() == 1,
        0 <= p <= 100,
    ensures
        percentile_of(s, p) == s[0],
{
    lemma_sorted_asc_ensures(s);
    let t = sorted_asc(s);
    assert(t.len() == 1);
    assert(t.contains(t[0]));
    assert(s.to_multiset().count(t[0]) > 0);
    assert(s.contains(t[0]));
    assert(t[0] == s[0]);
    assert(p * (t.len() - 1) == 0);
}

/// Copy the samples into a fresh vector.
fn copy_samples(v: &Vec<u64>) -> (r: Vec<u64>)
    ensures
        r@ == v@,
{
    let mut out: Vec<u64> = Vec::new();
    let mut i: usize = 0;
    while i < v.len()
        invariant
            i <= v@.len(),
            out@ == v@.subrange(0, i as int),
        decreases v@.len() - i,
    {
        out.push(v[i]);
        proof {
            assert(v@.subrange(0, i + 1 as int) =~= v@.subrange(0, i as int).push(v@[i as int]));
        }
        i += 1;
    }
    proof {
        assert(v@.subrange(0, v@.len() as int) =~= v@);
    }
    out
}

/// Sort the samples ascending (selection sort).
pub(crate) fn sort_samples(v: &Vec<u64>) -> (r: Vec<u64>)
    ensures
        r@ == sorted_asc(v@),
        sorted(r@),
        r@.len() == v@.len(),
{
    let mut rest: Vec<u64> = copy_samples(v);
    let mut out: Vec<u64> = Vec::new();
    proof {
        assert(out@.to_multiset().add(rest@.to_multiset()) =~= v@.to_multiset());
    }
    while rest.len() > 0
        invariant
            sorted(out@),
            out@.to_multiset().add(rest@.to_multiset()) =~= v@.to_multiset(),
            out@.len() + rest@.len() == v@.len(),
            forall|a: int, b: int|
                0 <= a < out@.len() && 0 <= b < rest@.len() ==> out@[a] <= rest@[b],
        decreases rest@.len(),
    {
        let mut mi: usize = 0;
        let mut k: usize = 1;
        while k < rest.len()
            invariant
                0 < rest@.len(),
                mi < k,
                k <= rest@.len(),
                forall|j: int| 0 <= j < k ==> rest@[mi as int] <= rest@[j],
            decreases rest@.len() - k,
        {
            if rest[k] < rest[mi] {
                mi = k;
            }
            k += 1;
        }
        let ghost old_out = out@;
        let ghost old_rest = rest@;
        let x = rest.remove(mi);
        out.push(x);
        proof {
            assert(out@.to_multiset() =~= old_out.to_multiset().insert(x));
            assert(rest@.to_multiset() =~= old_rest.to_multiset().remove(x));
            assert(old_rest.to_multiset().count(x) > 0) by {
                assert(old_rest.contains(x));
            }
            assert(out@.to_multiset().add(rest@.to_multiset()) =~= v@.to_multiset());
            assert forall|a: int, b: int|
                0 <= a < out@.len() && 0 <= b < rest@.len() implies out@[a] <= rest@[b] by {
                assert(rest@[b] == if b < mi as int { old_rest[b] } else { old_rest[b + 1] });
                if a < old_out.len() {
                    assert(out@[a] == old_out[a]);
                } else {
                    assert(out@[a] == x);
                }
            }
            assert forall|i: int, j: int| 0 <= i < j < out@.len() implies out@[i] <= out@[j] by {
                if j < old_out.len() {
                    assert(old_out[i] <= old_out[j]);
                } else {
                    assert(out@[j] == x);
                    assert(old_out[i] <= old_rest[mi as int]);
                }
            }
        }
    }
    proof {
        assert(rest@ =~= Seq::<u64>::empty());
        assert forall|a: u64| rest@.to_multiset().count(a) == 0 by {
            assert(!rest@.contains(a));
        }
        assert(rest@.to_multiset() =~= Multiset::<u64>::empty());
        assert(out@.to_multiset() =~= v@.to_multiset());
        lemma_u64_leq_total();
        v@.lemma_sort_by_ensures(u64_leq());
        assert forall|i: int, j: int| 0 <= i < j < out@.len()
            implies #[trigger] u64_leq()(out@[i], out@[j]) by {
            assert(out@[i] <= out@[j]);
        }
        lemma_sorted_unique(out@, v@.sort_by(u64_leq()), u64_leq());
        assert(out@ =~= sorted_asc(v@));
    }
    out
}

/// Sum the samples.
pub(crate) fn sum_samples(v: &Vec<u64>) -> (r: u64)
    requires
        v@.len() <= SAMPLE_COUNT_LIMIT,
        forall|i: int| 0 <= i < v@.len() ==> v@[i] <= SAMPLE_LIMIT,
    ensures
        r == sum_of(v@),
        r <= v@.len() * SAMPLE_LIMIT,
{
    let mut acc: u64 = 0;
    let mut i: usize = 0;
    while i < v.len()
        invariant
            i <= v@.len(),
            v@.len() <= SAMPLE_COUNT_LIMIT,
            forall|k: int| 0 <= k < v@.len() ==> v@[k] <= SAMPLE_LIMIT,
            acc == sum_of(v@.subrange(0, i as int)),
            acc <= i * SAMPLE_LIMIT,
        decreases v@.len() - i,
    {
        proof {
            let prefix = v@.subrange(0, i + 1 as int);
            assert(prefix.drop_last() =~= v@.subrange(0, i as int));
            assert(prefix.last() == v@[i as int]);
        }
        acc = acc + v[i];
        i += 1;
    }
    proof {
        assert(v@.subrange(0, v@.len() as int) =~= v@);
    }
    acc
}

/// Sum the squared deviations of the samples from `mean`.
fn sum_sq_devs(v: &Vec<u64>, mean: u64) -> (r: u128)
    requires
        v@.len() <= SAMPLE_COUNT_LIMIT,
        forall|i: int| 0 <= i < v@.len() ==> v@[i] <= SAMPLE_LIMIT,
        mean <= SAMPLE_LIMIT,
    ensures
        r == sq_dev_sum(v@, mean as int),
        r <= v@.len() * 1_000_000_000_000_000_000_000_000,
{
    let mut acc: u128 = 0;
    let mut i: usize = 0;
    while i < v.len()
        invariant
            i <= v@.len(),
            v@.len() <= SAMPLE_COUNT_LIMIT,
            forall|k: int| 0 <= k < v@.len() ==> v@[k] <= SAMPLE_LIMIT,
            mean <= SAMPLE_LIMIT,
            acc == sq_dev_sum(v@.subrange(0, i as int), mean as int),
            acc <= i * 1_000_000_000_000_000_000_000_000,
        decreases v@.len() - i,
    {
        let x = v[i];
        let diff: u64 = if x >= mean {
            x - mean
        } else {
            mean - x
        };
        proof {
            assert((diff as int) * (diff as int) == (x - mean) * (x - mean)) by (nonlinear_arith)
                requires
                    diff == if x >= mean { x - mean } else { mean - x },
            ;
            assert((diff as int) * (diff as int) <= 1_000_000_000_000_000_000_000_000)
                by (nonlinear_arith)
                requires
                    0 <= diff <= 1_000_000_000_000u64,
            ;
            let prefix = v@.subrange(0, i + 1 as int);
            assert(prefix.drop_last() =~= v@.subrange(0, i as int));
            assert(prefix.last() == v@[i as int]);
        }
        let sq: u128 = (diff as u128) * (diff as u128);
        acc = acc + sq;
        i += 1;
    }
    proof {
        assert(v@.subrange(0, v@.len() as int) =~= v@);
    }
    acc
}

/// Integer square root by binary search.
fn isqrt(v: u128) -> (r: u64)
    requires
        v <= 1_000_000_000_000_000_000_000_000,
    ensures
        is_isqrt(r as int, v as int),
{
    let mut lo: u64 = 0;
    let mut hi: u64 = 1_000_000_000_001;
    proof {
        assert((hi as int) * (hi as int) > 1_000_000_000_000_000_000_000_000) by (nonlinear_arith)
            requires
                hi == 1_000_000_000_001u64,
        ;
    }
    while lo + 1 < hi
        invariant
            lo < hi <= 1_000_000_000_001,
            (lo as int) * (lo as int) <= v as int,
            (v as int) < (hi as int) * (hi as int),
        decreases hi - lo,
    {
        let mid: u64 = lo + (hi - lo) / 2;
        proof {
            assert((mid as int) * (mid as int) <= 1_000_000_000_001int * 1_000_000_000_001int)
                by (nonlinear_arith)
                requires
                    0 <= mid <= 1_000_000_000_001u64,
            ;
        }
        let sq: u128 = (mid as u128) * (mid as u128);
        if sq <= v {
            lo = mid;
        } else {
            hi = mid;
        }
    }
    lo
}

/// Percentile `p` of an ascending sample vector, by linear interpolation
/// between the two closest ranks.
pub(crate) fn percentile_from_sorted(samples: &Vec<u64>, p: u64) -> (r: u64)
    requires
        1 <= samples@.len() <= SAMPLE_COUNT_LIMIT,
        p <= 100,
        sorted(samples@),
        forall|i: int| 0 <= i < samples@.len() ==> samples@[i] <= SAMPLE_LIMIT,
    ensures
        r == interp_at(samples@, p as int),
        r <= SAMPLE_LIMIT,
{
    let n: usize = samples.len();
    proof {
        lemma_mul_inequality(p as int, 100, n as int - 1);
    }
    let rank: u64 = p * (n as u64 - 1);
    proof {
        lemma_div_is_ordered(rank as int, 100 * (n as int - 1), 100);
        lemma_div_multiples_vanish(n as int - 1, 100);
    }
    let lo: usize = (rank / 100) as usize;
    let frac: u64 = rank % 100;
    assert(lo < n);
    if lo + 1 < n {
        let low = samples[lo];
        let high = samples[lo + 1];
        proof {
            assert(samples@[lo as int] <= samples@[lo as int + 1]);
            lemma_mul_inequality(frac as int, 100, high as int - low as int);
            lemma_div_is_ordered(
                frac as int * (high as int - low as int),
                100 * (high as int - low as int),
                100,
            );
            lemma_div_multiples_vanish(high as int - low as int, 100);
        }
        let step: u64 = frac * (high - low) / 100;
        low + step
    } else {
        samples[lo]
    }
}

/// Aggregate one benchmark session's samples (microseconds each) into
/// `{min, max, avg, stddev, p95, p99}`.
///
/// Fails exactly when the sample sequence is empty: a benchmark session
/// must never reach its completed state with zero runs. The mean and
/// variance use flooring division; the standard deviation is the integer
/// square root of the population variance.
pub fn aggregate_stats(samples: &Vec<u64>) -> (r: Result<BenchmarkStats, StatsError>)
    requires
        samples@.len() <= SAMPLE_COUNT_LIMIT,
        forall|i: int| 0 <= i < samples@.len() ==> samples@[i] <= SAMPLE_LIMIT,
    ensures
        r is Err <==> samples@.len() == 0,
        r is Err ==> r == Err::<BenchmarkStats, StatsError>(StatsError::EmptyInput),
        r matches Ok(st) ==> {
            &&& st.min_us == sorted_asc(samples@)[0]
            &&& st.max_us == sorted_asc(samples@).last()
            &&& st.avg_us == mean_of(samples@)
            &&& is_isqrt(st.stddev_us as int, variance_of(samples@))
            &&& st.p95_us == percentile_of(samples@, 95)
            &&& st.p99_us == percentile_of(samples@, 99)
        },
{
    let n: usize = samples.len();
    if n == 0 {
        return Err(StatsError::EmptyInput);
    }
    let sorted_samples = sort_samples(samples);
    proof {
        lemma_sorted_asc_ensures(samples@);
        assert forall|i: int| 0 <= i < sorted_samples@.len()
            implies sorted_samples@[i] <= SAMPLE_LIMIT by {
            assert(sorted_samples@.contains(sorted_samples@[i]));
            assert(samples@.to_multiset().count(sorted_samples@[i]) > 0);
            assert(samples@.contains(sorted_samples@[i]));
            let j = choose|j: int| 0 <= j < samples@.len() && samples@[j] == sorted_samples@[i];
            assert(samples@[j] <= SAMPLE_LIMIT);
        }
    }
    let min_us = sorted_samples[0];
    let max_us = sorted_samples[n - 1];
    let sum: u64 = sum_samples(samples);
    let avg_us: u64 = sum / (n as u64);
    proof {
        lemma_div_is_ordered(sum as int, n as int * SAMPLE_LIMIT as int, n as int);
        lemma_div_multiples_vanish(SAMPLE_LIMIT as int, n as int);
        assert(n as int * SAMPLE_LIMIT as int == SAMPLE_LIMIT as int * n as int);
        assert(avg_us <= SAMPLE_LIMIT);
    }
    let sq_devs: u128 = sum_sq_devs(samples, avg_us);
    let variance: u128 = sq_devs / (n as u128);
    proof {
        lemma_div_is_ordered(
            sq_devs as int,
            n as int * 1_000_000_000_000_000_000_000_000,
            n as int,
        );
        lemma_div_multiples_vanish(1_000_000_000_000_000_000_000_000, n as int);
        assert(variance <= 1_000_000_000_000_000_000_000_000);
    }
    let stddev_us = isqrt(variance);
    let p95_us = percentile_from_sorted(&sorted_samples, 95);
    let p99_us = percentile_from_sorted(&sorted_samples, 99);
    Ok(BenchmarkStats { min_us, max_us, avg_us, stddev_us, p95_us, p99_us })
}

} // verus!
