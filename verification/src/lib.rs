//! Quality and performance scoring engine for a registry of versioned
//! contract artifacts.
//!
//! The library computes, from already-extracted raw measurements, a weighted
//! multi-dimensional quality score with a discrete badge, comparisons against
//! a peer category and a configured minimum-quality gate, and aggregated
//! latency statistics per benchmark session with detection of performance
//! regressions against a prior baseline.
//!
//! All quantities are fixed-point integers so that every computation is exact
//! and reproducible:
//! - scores are in *millipoints* (thousandths of a point on the 0..=100 scale,
//!   so the full range is `0..=100_000`);
//! - weights and coverage fractions are in *parts per million* (`1_000_000`
//!   stands for `1.0`);
//! - execution times are in *microseconds* (thousandths of a millisecond);
//! - percentages (regression deltas, alert thresholds) are in
//!   *millipercent* (thousandths of a percent point).

pub mod badge;
pub mod score;
pub mod stats;
pub mod threshold;
pub mod category;
pub mod benchmark;
pub mod regression;
pub mod registry;
pub mod audit;
pub mod api;

pub use api::{QualityRecord, QualityResponse};
pub use badge::QualityBadge;
pub use benchmark::{BenchmarkRecord, BenchmarkStatus, RunBenchmarkRequest};
pub use category::CategoryBenchmark;
pub use regression::{BenchmarkComparison, PerformanceAlert};
pub use score::{
    CodeMetrics, DocMetrics, QualityScoreBreakdown, QualityWeights, ScoreError, SecurityMetrics,
    TestMetrics,
};
pub use stats::{BenchmarkStats, StatsError};
pub use threshold::{QualityThreshold, ThresholdCheckResult, ThresholdViolation};
