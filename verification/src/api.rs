//! Request/response shapes and persisted snapshot records around the
//! engine, plus the composition that turns raw metrics into a complete
//! quality snapshot.

use vstd::prelude::*;
use crate::badge::{badge_label_of, badge_of, QualityBadge};
use crate::benchmark::{BenchmarkRecord, BenchmarkRun};
use crate::category::CategoryBenchmark;
use crate::regression::{BenchmarkComparison, PerformanceAlert};
use crate::score::{
    breakdown_of, calculate_quality_score, weights_valid, CodeMetrics, DocMetrics,
    QualityScoreBreakdown, QualityWeights, ScoreError, SecurityMetrics, TestMetrics,
};
use crate::threshold::ThresholdCheckResult;

verus! {

/// One quality snapshot per contract version: the raw metrics it was
/// computed from, the dimension scores (millipoints), and the badge label.
/// Never mutated after creation — a re-score creates a new snapshot.
#[derive(Debug, Clone, PartialEq)]
pub struct QualityRecord {
    pub id: u128,
    pub contract_id: u128,
    pub contract_version: String,
    pub code_metrics: CodeMetrics,
    pub test_metrics: TestMetrics,
    pub doc_metrics: DocMetrics,
    pub security_metrics: SecurityMetrics,
    pub code_score: u64,
    pub test_score: u64,
    pub doc_score: u64,
    pub security_score: u64,
    pub overall_score: u64,
    pub badge: String,
    /// Unix epoch milliseconds.
    pub computed_at: i64,
}

/// One point in a quality trend chart (scores in millipoints).
#[derive(Debug, Clone, PartialEq)]
pub struct QualityTrendPoint {
    pub quality_id: u128,
    pub contract_version: String,
    /// Unix epoch milliseconds.
    pub computed_at: i64,
    pub overall_score: u64,
    pub code_score: u64,
    pub test_score: u64,
    pub doc_score: u64,
    pub security_score: u64,
    pub badge: String,
}

/// Request to compute a fresh quality snapshot. Default weights apply when
/// none are given.
#[derive(Debug, Clone, PartialEq)]
pub struct ComputeQualityRequest {
    pub source_code: String,
    pub version: String,
    pub test_output: Option<String>,
    pub audit_id: Option<u128>,
    pub weights: Option<QualityWeights>,
}

/// Full response for a quality query.
#[derive(Debug, Clone, PartialEq)]
pub struct QualityResponse {
    pub record: QualityRecord,
    pub breakdown: QualityScoreBreakdown,
    pub code_metrics: CodeMetrics,
    pub test_metrics: TestMetrics,
    pub doc_metrics: DocMetrics,
    pub security_metrics: SecurityMetrics,
    pub badge: QualityBadge,
    pub threshold_result: Option<ThresholdCheckResult>,
    pub benchmark: Option<CategoryBenchmark>,
}

/// Request to set a contract's quality gate (scores in millipoints).
#[derive(Debug, Clone, PartialEq)]
pub struct SetThresholdRequest {
    pub min_overall_score: u64,
    pub min_code_score: u64,
    pub min_test_score: u64,
    pub min_doc_score: u64,
    pub min_security_score: u64,
    pub fail_on_critical_finding: bool,
    pub created_by: String,
}

/// Response for a completed benchmark session.
#[derive(Debug, Clone, PartialEq)]
pub struct BenchmarkResponse {
    pub benchmark: BenchmarkRecord,
    /// Individual run timings, in execution order.
    pub runs: Vec<BenchmarkRun>,
    /// Alert if a regression was detected against the baseline.
    pub alert: Option<PerformanceAlert>,
    /// How this session compares to the previous one for the same method.
    pub comparison: Option<BenchmarkComparison>,
}

/// Summary of all benchmarks for a contract.
#[derive(Debug, Clone, PartialEq)]
pub struct ContractBenchmarkSummary {
    pub contract_id: u128,
    pub total_benchmarks: i64,
    pub methods_benchmarked: Vec<String>,
    pub latest_benchmarks: Vec<BenchmarkRecord>,
    pub active_alerts: Vec<PerformanceAlert>,
}

/// Historical latency trend point (times in microseconds).
#[derive(Debug, Clone, PartialEq)]
pub struct BenchmarkTrendPoint {
    pub benchmark_id: u128,
    pub version: String,
    /// Unix epoch milliseconds.
    pub created_at: i64,
    pub p95_us: u64,
    pub avg_us: u64,
    pub min_us: u64,
    pub max_us: u64,
}

/// The weight set a request resolves to: its own, or the defaults.
pub fn resolve_weights(weights: Option<QualityWeights>) -> (r: QualityWeights)
    ensures
        r == match weights {
            Some(w) => w,
            None => QualityWeights {
                code: 250_000u32,
                tests: 300_000u32,
                docs: 200_000u32,
                security: 250_000u32,
            },
        },
{
    match weights {
        Some(w) => w,
        None => QualityWeights::default(),
    }
}

/// Compute a complete quality snapshot: scores, overall, and badge label,
/// all pinned to the metric and weight inputs.
pub fn make_quality_record(
    id: u128,
    contract_id: u128,
    contract_version: String,
    code: &CodeMetrics,
    test: &TestMetrics,
    doc: &DocMetrics,
    sec: &SecurityMetrics,
    weights: &QualityWeights,
    computed_at: i64,
) -> (r: Result<QualityRecord, ScoreError>)
    ensures
        r is Ok <==> weights_valid(*weights) && code.valid() && test.valid() && doc.valid()
            && sec.valid(),
        !weights_valid(*weights) ==> r == Err::<QualityRecord, ScoreError>(
            ScoreError::InvalidWeights,
        ),
        r matches Ok(rec) ==> {
            let b = breakdown_of(*code, *test, *doc, *sec, *weights);
            &&& rec.id == id
            &&& rec.contract_id == contract_id
            &&& rec.contract_version == contract_version
            &&& rec.code_metrics == *code
            &&& rec.test_metrics == *test
            &&& rec.doc_metrics == *doc
            &&& rec.security_metrics == *sec
            &&& rec.code_score == b.code_score
            &&& rec.test_score == b.test_score
            &&& rec.doc_score == b.doc_score
            &&& rec.security_score == b.security_score
            &&& rec.overall_score == b.overall_score
            &&& rec.badge@ == badge_label_of(badge_of(b.overall_score))
            &&& rec.computed_at == computed_at
        },
{
    match calculate_quality_score(code, test, doc, sec, weights) {
        Ok((breakdown, badge)) => Ok(QualityRecord {
            id,
            contract_id,
            contract_version,
            code_metrics: *code,
            test_metrics: *test,
            doc_metrics: *doc,
            security_metrics: *sec,
            code_score: breakdown.code_score,
            test_score: breakdown.test_score,
            doc_score: breakdown.doc_score,
            security_score: breakdown.security_score,
            overall_score: breakdown.overall_score,
            badge: badge.label(),
            computed_at,
        }),
        Err(e) => Err(e),
    }
}

} // verus!
