//! Category benchmarker: ranks one artifact's overall score against the
//! distribution of scores of its peer category.
//!
//! The peer percentiles use the same linear-interpolation method as the
//! latency statistics, so one consistent algorithm serves the whole system.
//! The percentile rank counts, over the combined set (peers plus this
//! artifact), the fraction of scores less than or equal to this artifact's
//! score — ties count in the artifact's favor, so an artifact tied with the
//! maximum ranks at 100.

use vstd::prelude::*;
use vstd::arithmetic::div_mod::{lemma_div_is_ordered, lemma_div_multiples_vanish};
use crate::stats::{
    interp_at, mean_of, percentile_of, sorted_asc, sort_samples, sum_samples,
    percentile_from_sorted, lemma_sorted_asc_ensures, SAMPLE_COUNT_LIMIT,
};

verus! {

broadcast use vstd::seq_lib::group_to_multiset_ensures;

/// How one artifact's quality compares to its category peers. All scores in
/// millipoints; the percentile rank in millipercent (`0..=100_000`).
#[derive(Debug, Clone, PartialEq)]
pub struct CategoryBenchmark {
    pub category: String,
    pub peer_count: u64,
    pub category_avg_score: u64,
    pub category_p25_score: u64,
    pub category_p75_score: u64,
    pub category_p95_score: u64,
    pub this_contract_score: u64,
    pub percentile_rank: u64,
    pub above_average: bool,
}

/// Number of peers whose score is less than or equal to `score`.
pub open spec fn count_le(s: Seq<u64>, score: u64) -> int {
    s.fold_left(0int, |acc: int, x: u64| if x <= score { acc + 1 } else { acc })
}

/// The percentile rank owed for `score` against `peers`, in millipercent:
/// the artifact itself always counts among the scores at or below its own.
pub open spec fn percentile_rank_of(peers: Seq<u64>, score: u64) -> int {
    (count_le(peers, score) + 1) * 100_000 / (peers.len() as int + 1)
}

/// Law: an artifact at or above every peer ranks at the maximum, 100.
pub proof fn lemma_rank_of_maximum(peers: Seq<u64>, score: u64)
    requires
        forall|i: int| 0 <= i < peers.len() ==> peers[i] <= score,
    ensures
        percentile_rank_of(peers, score) == 100_000,
    decreases peers.len(),
{
    lemma_count_le_all(peers, score);
    lemma_div_multiples_vanish(100_000, peers.len() as int + 1);
    assert((peers.len() as int + 1) * 100_000 == 100_000 * (peers.len() as int + 1));
}

/// When every element is at or below `score`, all of them count.
proof fn lemma_count_le_all(s: Seq<u64>, score: u64)
    requires
        forall|i: int| 0 <= i < s.len() ==> s[i] <= score,
    ensures
        count_le(s, score) == s.len(),
    decreases s.len(),
{
    if s.len() > 0 {
        assert(forall|i: int| 0 <= i < s.drop_last().len() ==> s.drop_last()[i] <= score);
        lemma_count_le_all(s.drop_last(), score);
    }
}

/// Count the peers whose score is at or below `score`.
fn count_peers_le(v: &Vec<u64>, score: u64) -> (r: u64)
    requires
        v@.len() <= SAMPLE_COUNT_LIMIT,
    ensures
        r == count_le(v@, score),
        r <= v@.len(),
{
    let mut count: u64 = 0;
    let mut i: usize = 0;
    while i < v.len()
        invariant
            i <= v@.len(),
            v@.len() <= SAMPLE_COUNT_LIMIT,
            count == count_le(v@.subrange(0, i as int), score),
            count <= i,
        decreases v@.len() - i,
    {
        proof {
            let prefix = v@.subrange(0, i + 1 as int);
            assert(prefix.drop_last() =~= v@.subrange(0, i as int));
            assert(prefix.last() == v@[i as int]);
        }
        if v[i] <= score {
            count = count + 1;
        }
        i += 1;
    }
    proof {
        assert(v@.subrange(0, v@.len() as int) =~= v@);
    }
    count
}

/// Rank one artifact's overall score (millipoints) against the overall
/// scores of every other artifact in its category.
///
/// With no peers the result is the documented degenerate case: the mean and
/// every percentile echo the artifact's own score, the rank is 100, and the
/// artifact counts as above average. Otherwise the peer mean (flooring) and
/// the 25th/75th/95th peer percentiles are computed, the rank counts ties
/// in the artifact's favor, and `above_average` is strict.
pub fn benchmark_category(category: String, this_score: u64, peers: &Vec<u64>) -> (r:
    CategoryBenchmark)
    requires
        this_score <= 100_000,
        peers@.len() <= SAMPLE_COUNT_LIMIT,
        forall|i: int| 0 <= i < peers@.len() ==> peers@[i] <= 100_000,
    ensures
        r.category@ == category@,
        r.this_contract_score == this_score,
        r.peer_count == peers@.len(),
        peers@.len() == 0 ==> {
            &&& r.category_avg_score == this_score
            &&& r.category_p25_score == this_score
            &&& r.category_p75_score == this_score
            &&& r.category_p95_score == this_score
            &&& r.percentile_rank == 100_000
            &&& r.above_average
        },
        peers@.len() > 0 ==> {
            &&& r.category_avg_score == mean_of(peers@)
            &&& r.category_p25_score == percentile_of(peers@, 25)
            &&& r.category_p75_score == percentile_of(peers@, 75)
            &&& r.category_p95_score == percentile_of(peers@, 95)
            &&& r.percentile_rank == percentile_rank_of(peers@, this_score)
            &&& r.above_average == (this_score > mean_of(peers@))
        },
        r.percentile_rank <= 100_000,
{
    if peers.len() == 0 {
        return CategoryBenchmark {
            category,
            peer_count: 0,
            category_avg_score: this_score,
            category_p25_score: this_score,
            category_p75_score: this_score,
            category_p95_score: this_score,
            this_contract_score: this_score,
            percentile_rank: 100_000,
            above_average: true,
        };
    }
    let n: usize = peers.len();
    let sorted_peers = sort_samples(peers);
    proof {
        lemma_sorted_asc_ensures(peers@);
        assert forall|i: int| 0 <= i < sorted_peers@.len()
            implies sorted_peers@[i] <= 1_000_000_000_000 by {
            assert(sorted_peers@.contains(sorted_peers@[i]));
            assert(peers@.to_multiset().count(sorted_peers@[i]) > 0);
            assert(peers@.contains(sorted_peers@[i]));
            let j = choose|j: int| 0 <= j < peers@.len() && peers@[j] == sorted_peers@[i];
            assert(peers@[j] <= 100_000);
        }
    }
    let sum: u64 = sum_samples(peers);
    let avg: u64 = sum / (n as u64);
    let p25 = percentile_from_sorted(&sorted_peers, 25);
    let p75 = percentile_from_sorted(&sorted_peers, 75);
    let p95 = percentile_from_sorted(&sorted_peers, 95);
    let count = count_peers_le(peers, this_score);
    let rank: u64 = (count + 1) * 100_000 / (n as u64 + 1);
    proof {
        lemma_div_is_ordered(
            (count as int + 1) * 100_000,
            (n as int + 1) * 100_000,
            n as int + 1,
        );
        lemma_div_multiples_vanish(100_000, n as int + 1);
        assert((n as int + 1) * 100_000 == 100_000 * (n as int + 1));
    }
    CategoryBenchmark {
        category,
        peer_count: n as u64,
        category_avg_score: avg,
        category_p25_score: p25,
        category_p75_score: p75,
        category_p95_score: p95,
        this_contract_score: this_score,
        percentile_rank: rank,
        above_average: this_score > avg,
    }
}

} // verus!
