//! Regression detector: compares a newly completed benchmark session's
//! 95th-percentile latency against a prior baseline session for the same
//! operation.
//!
//! With no baseline there is nothing to compare. With one, a comparison is
//! always produced — it is informational, independent of the alert
//! threshold — and an alert is created if and only if the signed percentage
//! delta exceeds the threshold. Improvements (a negative delta) are never
//! regressions, whatever their magnitude.

use vstd::prelude::*;
use crate::benchmark::{BenchmarkRecord, BenchmarkStatus};
use crate::stats::SAMPLE_LIMIT;

verus! {

/// Non-alerting, informational diff against the most recent prior completed
/// benchmark for the same operation and artifact. Times in microseconds;
/// the deltas in microseconds and in signed millipercent.
#[derive(Debug, Clone, PartialEq)]
pub struct BenchmarkComparison {
    pub previous_benchmark_id: u128,
    pub previous_version: String,
    pub previous_p95_us: u64,
    pub current_p95_us: u64,
    pub delta_us: i64,
    pub delta_pct: i64,
    pub is_regression: bool,
}

/// A performance regression alert, created only when the detector decides a
/// regression occurred. `resolved` starts false and is flipped by an
/// external action; everything else is immutable.
#[derive(Debug, Clone, PartialEq)]
pub struct PerformanceAlert {
    pub id: u128,
    pub contract_id: u128,
    pub method_name: String,
    pub baseline_benchmark_id: u128,
    pub current_benchmark_id: u128,
    pub baseline_p95_us: u64,
    pub current_p95_us: u64,
    /// Signed millipercent; equals the comparison's `delta_pct` exactly.
    pub regression_pct: i64,
    /// Millipercent.
    pub alert_threshold_pct: u64,
    pub resolved: bool,
    /// Unix epoch milliseconds.
    pub created_at: i64,
}

/// Signed p95 delta in microseconds.
pub open spec fn delta_us_of(baseline_p95: u64, current_p95: u64) -> int {
    current_p95 - baseline_p95
}

/// Signed percentage delta in millipercent, truncated toward zero. A zero
/// baseline would make the ratio undefined, so that case is pinned: no
/// change is 0, and any slowdown from zero counts as a full 100 percent
/// regression.
pub open spec fn delta_pct_of(baseline_p95: u64, current_p95: u64) -> int {
    if baseline_p95 == 0 {
        if current_p95 == 0 {
            0int
        } else {
            100_000int
        }
    } else if current_p95 >= baseline_p95 {
        (current_p95 - baseline_p95) * 100_000 / (baseline_p95 as int)
    } else {
        -((baseline_p95 - current_p95) * 100_000 / (baseline_p95 as int))
    }
}

/// Whether the delta crosses the alert threshold (strictly).
pub open spec fn is_regression_of(baseline_p95: u64, current_p95: u64, threshold_pct: u64) -> bool {
    delta_pct_of(baseline_p95, current_p95) > threshold_pct
}

/// Law: an improvement — a current p95 at or below the baseline — is never
/// a regression, whatever the threshold.
pub proof fn lemma_improvement_is_never_regression(
    baseline_p95: u64,
    current_p95: u64,
    threshold_pct: u64,
)
    requires
        current_p95 <= baseline_p95,
    ensures
        !is_regression_of(baseline_p95, current_p95, threshold_pct),
{
    if baseline_p95 > 0 && current_p95 < baseline_p95 {
        let d = (baseline_p95 - current_p95) * 100_000;
        assert(d >= 0);
        assert(d / (baseline_p95 as int) >= 0) by (nonlinear_arith)
            requires
                d >= 0,
                baseline_p95 > 0,
        ;
    }
}

/// Compare a completed session against an optional baseline and decide
/// whether to raise an alert.
///
/// With no baseline, neither a comparison nor an alert is produced. With
/// one, the comparison always is; the alert exists if and only if the delta
/// crosses the threshold, its `regression_pct` equals the comparison's
/// `delta_pct` exactly, and it starts unresolved.
pub fn detect_regression(
    current: &BenchmarkRecord,
    baseline: &Option<BenchmarkRecord>,
    alert_threshold_pct: u64,
    alert_id: u128,
    now: i64,
) -> (r: (Option<BenchmarkComparison>, Option<PerformanceAlert>))
    requires
        current.status is Completed,
        current.p95_us <= SAMPLE_LIMIT,
        baseline matches Some(b) ==> b.status is Completed && b.p95_us <= SAMPLE_LIMIT,
        alert_threshold_pct <= 100_000_000,
    ensures
        baseline is None ==> r.0 is None && r.1 is None,
        baseline matches Some(b) ==> r.0 matches Some(c) && {
            &&& c.previous_benchmark_id == b.id
            &&& c.previous_version == b.contract_version
            &&& c.previous_p95_us == b.p95_us
            &&& c.current_p95_us == current.p95_us
            &&& c.delta_us == delta_us_of(b.p95_us, current.p95_us)
            &&& c.delta_pct == delta_pct_of(b.p95_us, current.p95_us)
            &&& c.is_regression == is_regression_of(b.p95_us, current.p95_us, alert_threshold_pct)
        },
        baseline matches Some(b) ==> (r.1 is Some <==> is_regression_of(
            b.p95_us,
            current.p95_us,
            alert_threshold_pct,
        )),
        baseline matches Some(b) ==> r.1 matches Some(a) ==> {
            &&& a.id == alert_id
            &&& a.contract_id == current.contract_id
            &&& a.method_name == current.method_name
            &&& a.baseline_benchmark_id == b.id
            &&& a.current_benchmark_id == current.id
            &&& a.baseline_p95_us == b.p95_us
            &&& a.current_p95_us == current.p95_us
            &&& a.regression_pct == delta_pct_of(b.p95_us, current.p95_us)
            &&& a.alert_threshold_pct == alert_threshold_pct
            &&& !a.resolved
            &&& a.created_at == now
        },
{
    let b = match baseline {
        Some(b) => b,
        None => {
            return (None, None);
        },
    };
    let base: u64 = b.p95_us;
    let cur: u64 = current.p95_us;
    let (delta_us, delta_pct): (i64, i64) = if base == 0 {
        if cur == 0 {
            (0, 0)
        } else {
            (cur as i64, 100_000)
        }
    } else if cur >= base {
        let d: u64 = cur - base;
        let pct: u64 = d * 100_000 / base;
        proof {
            assert(d * 100_000 / (base as int) <= d * 100_000);
        }
        (d as i64, pct as i64)
    } else {
        let d: u64 = base - cur;
        let pct: u64 = d * 100_000 / base;
        proof {
            assert(d * 100_000 / (base as int) <= d * 100_000);
        }
        (-(d as i64), -(pct as i64))
    };
    let is_regression = delta_pct > alert_threshold_pct as i64;
    let comparison = BenchmarkComparison {
        previous_benchmark_id: b.id,
        previous_version: b.contract_version.clone(),
        previous_p95_us: base,
        current_p95_us: cur,
        delta_us,
        delta_pct,
        is_regression,
    };
    let alert = if is_regression {
        Some(PerformanceAlert {
            id: alert_id,
            contract_id: current.contract_id,
            method_name: current.method_name.clone(),
            baseline_benchmark_id: b.id,
            current_benchmark_id: current.id,
            baseline_p95_us: base,
            current_p95_us: cur,
            regression_pct: delta_pct,
            alert_threshold_pct,
            resolved: false,
            created_at: now,
        })
    } else {
        None
    };
    (Some(comparison), alert)
}

impl PerformanceAlert {
    /// Mark the alert resolved; everything else is unchanged.
    pub fn resolve(&mut self)
        ensures
            *final(self) == (PerformanceAlert { resolved: true, ..*old(self) }),
    {
        self.resolved = true;
    }
}

} // verus!
