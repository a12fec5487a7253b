//! Benchmark sessions: one batch of timed iterations of a single operation
//! on a single artifact version, with a status lifecycle and, once all runs
//! complete, aggregate statistics.
//!
//! A session is created pending, becomes running when execution starts, and
//! ends completed (all iterations finished, statistics computed) or failed
//! (irrecoverable execution error, or zero samples). Completed and failed
//! are terminal: no transition leaves them.

use vstd::prelude::*;
use crate::stats::{
    aggregate_stats, is_isqrt, mean_of, sorted_asc, variance_of, percentile_of, BenchmarkStats,
    StatsError, SAMPLE_COUNT_LIMIT, SAMPLE_LIMIT,
};

verus! {

broadcast use vstd::string::group_string_axioms;

/// Status of a benchmark session.
#[derive(Debug, Clone, Copy, PartialEq, Eq, Structural)]
pub enum BenchmarkStatus {
    Pending,
    Running,
    Completed,
    Failed,
}

/// The session lifecycle: pending sessions start running; running sessions
/// complete or fail; nothing leaves a terminal state.
pub open spec fn can_transition(from: BenchmarkStatus, to: BenchmarkStatus) -> bool {
    match (from, to) {
        (BenchmarkStatus::Pending, BenchmarkStatus::Running) => true,
        (BenchmarkStatus::Running, BenchmarkStatus::Completed) => true,
        (BenchmarkStatus::Running, BenchmarkStatus::Failed) => true,
        _ => false,
    }
}

impl BenchmarkStatus {
    /// Completed and failed sessions never change again.
    pub open spec fn is_terminal(self) -> bool {
        self is Completed || self is Failed
    }

    /// Whether the lifecycle allows moving from this status to `to`.
    pub fn can_transition_to(&self, to: &BenchmarkStatus) -> (r: bool)
        ensures
            r == can_transition(*self, *to),
    {
        match (self, to) {
            (BenchmarkStatus::Pending, BenchmarkStatus::Running) => true,
            (BenchmarkStatus::Running, BenchmarkStatus::Completed) => true,
            (BenchmarkStatus::Running, BenchmarkStatus::Failed) => true,
            _ => false,
        }
    }
}

/// Law: no transition leaves a terminal status.
pub proof fn lemma_terminal_states_are_final(from: BenchmarkStatus, to: BenchmarkStatus)
    requires
        from.is_terminal(),
    ensures
        !can_transition(from, to),
{
}

/// One timed iteration of a benchmark session. Immutable and append-only;
/// owned by exactly one record.
#[derive(Debug, Clone, PartialEq)]
pub struct BenchmarkRun {
    pub id: u128,
    pub benchmark_id: u128,
    pub iteration: i32,
    /// Execution time in microseconds.
    pub execution_time_us: u64,
    pub cpu_instructions: Option<i64>,
    pub memory_bytes: Option<i64>,
    /// Unix epoch milliseconds.
    pub created_at: i64,
}

/// One benchmark session: identifies the operation and artifact version,
/// the iteration count, and — once complete — the aggregate statistics
/// (all times in microseconds).
#[derive(Debug, Clone, PartialEq)]
pub struct BenchmarkRecord {
    pub id: u128,
    pub contract_id: u128,
    pub contract_version: String,
    pub method_name: String,
    pub iterations: i32,
    /// JSON-encoded method arguments used for this benchmark.
    pub args_json: Option<String>,
    pub min_us: u64,
    pub max_us: u64,
    pub avg_us: u64,
    pub p95_us: u64,
    pub p99_us: u64,
    pub stddev_us: u64,
    pub contract_size_bytes: Option<i64>,
    pub status: BenchmarkStatus,
    pub error_message: Option<String>,
    /// Unix epoch milliseconds.
    pub created_at: i64,
    /// Unix epoch milliseconds.
    pub completed_at: Option<i64>,
}

impl BenchmarkRecord {
    /// Create a pending session with empty statistics.
    pub fn new(
        id: u128,
        contract_id: u128,
        contract_version: String,
        method_name: String,
        iterations: i32,
        args_json: Option<String>,
        created_at: i64,
    ) -> (r: BenchmarkRecord)
        ensures
            r.id == id,
            r.contract_id == contract_id,
            r.contract_version == contract_version,
            r.method_name == method_name,
            r.iterations == iterations,
            r.args_json == args_json,
            r.status is Pending,
            r.min_us == 0 && r.max_us == 0 && r.avg_us == 0 && r.p95_us == 0 && r.p99_us == 0
                && r.stddev_us == 0,
            r.error_message is None,
            r.created_at == created_at,
            r.completed_at is None,
            r.contract_size_bytes is None,
    {
        BenchmarkRecord {
            id,
            contract_id,
            contract_version,
            method_name,
            iterations,
            args_json,
            min_us: 0,
            max_us: 0,
            avg_us: 0,
            p95_us: 0,
            p99_us: 0,
            stddev_us: 0,
            contract_size_bytes: None,
            status: BenchmarkStatus::Pending,
            error_message: None,
            created_at,
            completed_at: None,
        }
    }

    /// Mark a pending session as running; everything else is unchanged.
    pub fn start(&mut self)
        requires
            old(self).status is Pending,
        ensures
            final(self).status is Running,
            *final(self) == (BenchmarkRecord { status: BenchmarkStatus::Running, ..*old(self) }),
    {
        self.status = BenchmarkStatus::Running;
    }

    /// Mark a running session as failed, recording the reason; every other
    /// field is unchanged.
    pub fn fail(&mut self, reason: String, at: i64)
        requires
            old(self).status is Running,
        ensures
            final(self).status is Failed,
            *final(self) == (BenchmarkRecord {
                status: BenchmarkStatus::Failed,
                error_message: Some(reason),
                completed_at: Some(at),
                ..*old(self)
            }),
    {
        self.status = BenchmarkStatus::Failed;
        self.error_message = Some(reason);
        self.completed_at = Some(at);
    }

    /// Store computed statistics on a running session and mark it completed;
    /// the identity fields are unchanged.
    pub fn complete_with_stats(&mut self, stats: &BenchmarkStats, at: i64)
        requires
            old(self).status is Running,
        ensures
            final(self).status is Completed,
            *final(self) == (BenchmarkRecord {
                status: BenchmarkStatus::Completed,
                min_us: stats.min_us,
                max_us: stats.max_us,
                avg_us: stats.avg_us,
                p95_us: stats.p95_us,
                p99_us: stats.p99_us,
                stddev_us: stats.stddev_us,
                completed_at: Some(at),
                ..*old(self)
            }),
    {
        self.status = BenchmarkStatus::Completed;
        self.min_us = stats.min_us;
        self.max_us = stats.max_us;
        self.avg_us = stats.avg_us;
        self.p95_us = stats.p95_us;
        self.p99_us = stats.p99_us;
        self.stddev_us = stats.stddev_us;
        self.completed_at = Some(at);
    }
}

/// Aggregate a running session's samples and finish it: with at least one
/// sample the session completes carrying the statistics; with none it fails
/// with a human-readable reason instead of completing.
pub fn finalize_benchmark(record: &mut BenchmarkRecord, samples: &Vec<u64>, at: i64) -> (r:
    Result<BenchmarkStats, StatsError>)
    requires
        old(record).status is Running,
        samples@.len() <= SAMPLE_COUNT_LIMIT,
        forall|i: int| 0 <= i < samples@.len() ==> samples@[i] <= SAMPLE_LIMIT,
    ensures
        r is Ok <==> samples@.len() > 0,
        r is Err ==> r == Err::<BenchmarkStats, StatsError>(StatsError::EmptyInput)
            && final(record).status is Failed && final(record).completed_at == Some(at)
            && (final(record).error_message matches Some(m)
                && m@ == "benchmark session produced no samples"@),
        r matches Ok(st) ==> {
            &&& st.min_us == sorted_asc(samples@)[0]
            &&& st.max_us == sorted_asc(samples@).last()
            &&& st.avg_us == mean_of(samples@)
            &&& is_isqrt(st.stddev_us as int, variance_of(samples@))
            &&& st.p95_us == percentile_of(samples@, 95)
            &&& st.p99_us == percentile_of(samples@, 99)
            &&& *final(record) == (BenchmarkRecord {
                status: BenchmarkStatus::Completed,
                min_us: st.min_us,
                max_us: st.max_us,
                avg_us: st.avg_us,
                p95_us: st.p95_us,
                p99_us: st.p99_us,
                stddev_us: st.stddev_us,
                completed_at: Some(at),
                ..*old(record)
            })
        },
{
    match aggregate_stats(samples) {
        Ok(stats) => {
            record.complete_with_stats(&stats, at);
            Ok(stats)
        },
        Err(e) => {
            record.fail("benchmark session produced no samples".to_string(), at);
            Err(e)
        },
    }
}

/// Why a benchmark request was rejected before any run was executed.
#[derive(Debug, Clone, Copy, PartialEq, Eq, Structural)]
pub enum RequestError {
    /// The iteration count lies outside `1..=1000`.
    IterationsOutOfRange,
}

/// Request to run a benchmark session: the operation name, how many
/// iterations (bounded, never clamped), optional arguments and version tag,
/// and the regression alert threshold in millipercent.
#[derive(Debug, Clone, PartialEq)]
pub struct RunBenchmarkRequest {
    pub method: String,
    pub iterations: i32,
    pub args_json: Option<String>,
    pub version: Option<String>,
    pub alert_threshold_pct: u64,
}

impl RunBenchmarkRequest {
    /// The iteration count a request may carry.
    pub open spec fn valid(&self) -> bool {
        1 <= self.iterations <= 1000
    }

    /// Reject a request whose iteration count is out of range; values
    /// outside `1..=1000` are an error, not clamped.
    pub fn validate(&self) -> (r: Result<(), RequestError>)
        ensures
            r is Ok <==> self.valid(),
            r is Err ==> r == Err::<(), RequestError>(RequestError::IterationsOutOfRange),
    {
        if 1 <= self.iterations && self.iterations <= 1000 {
            Ok(())
        } else {
            Err(RequestError::IterationsOutOfRange)
        }
    }
}

/// Default number of iterations for a benchmark request.
pub fn default_iterations() -> (r: i32)
    ensures
        r == 100,
{
    100
}

/// Default regression alert threshold, in millipercent (10%).
pub fn default_threshold() -> (r: u64)
    ensures
        r == 10_000,
{
    10_000
}

} // verus!
