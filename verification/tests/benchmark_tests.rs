use registry_quality::benchmark::{
    default_iterations, default_threshold, finalize_benchmark, RequestError,
};
use registry_quality::audit::default_true;
use registry_quality::registry::{default_version_limit, PaginatedResponse};
use registry_quality::{BenchmarkRecord, BenchmarkStatus, RunBenchmarkRequest, StatsError};

fn fresh_record() -> BenchmarkRecord {
    BenchmarkRecord::new(
        7,
        11,
        "v1.2.0".to_string(),
        "transfer".to_string(),
        4,
        None,
        1_700_000_000_000,
    )
}

#[test]
fn new_records_start_pending() {
    let r = fresh_record();
    assert_eq!(r.status, BenchmarkStatus::Pending);
    assert_eq!(r.id, 7);
    assert_eq!(r.contract_id, 11);
    assert_eq!(r.contract_version, "v1.2.0");
    assert_eq!(r.method_name, "transfer");
    assert_eq!(r.iterations, 4);
    assert_eq!(r.min_us, 0);
    assert_eq!(r.error_message, None);
    assert_eq!(r.completed_at, None);
}

#[test]
fn lifecycle_transitions() {
    assert!(can_transition_ok(BenchmarkStatus::Pending, BenchmarkStatus::Running));
    assert!(can_transition_ok(BenchmarkStatus::Running, BenchmarkStatus::Completed));
    assert!(can_transition_ok(BenchmarkStatus::Running, BenchmarkStatus::Failed));
    assert!(!can_transition_ok(BenchmarkStatus::Pending, BenchmarkStatus::Completed));
    assert!(!can_transition_ok(BenchmarkStatus::Pending, BenchmarkStatus::Failed));
    assert!(!can_transition_ok(BenchmarkStatus::Running, BenchmarkStatus::Pending));
    // Terminal states have no outgoing transitions.
    for to in [
        BenchmarkStatus::Pending,
        BenchmarkStatus::Running,
        BenchmarkStatus::Completed,
        BenchmarkStatus::Failed,
    ] {
        assert!(!can_transition_ok(BenchmarkStatus::Completed, to));
        assert!(!can_transition_ok(BenchmarkStatus::Failed, to));
    }
}

fn can_transition_ok(from: BenchmarkStatus, to: BenchmarkStatus) -> bool {
    from.can_transition_to(&to)
}

#[test]
fn completing_a_session_stores_the_stats() {
    let mut r = fresh_record();
    r.start();
    assert_eq!(r.status, BenchmarkStatus::Running);
    let samples = vec![10_000u64, 20_000, 30_000, 40_000];
    let stats = finalize_benchmark(&mut r, &samples, 1_700_000_100_000).unwrap();
    assert_eq!(r.status, BenchmarkStatus::Completed);
    assert_eq!(r.min_us, 10_000);
    assert_eq!(r.max_us, 40_000);
    assert_eq!(r.avg_us, 25_000);
    assert_eq!(r.p95_us, 38_500);
    assert_eq!(r.p99_us, 39_700);
    assert_eq!(r.stddev_us, 11_180);
    assert_eq!(r.completed_at, Some(1_700_000_100_000));
    assert_eq!(r.error_message, None);
    assert_eq!(stats.p95_us, 38_500);
    // Identity fields are untouched.
    assert_eq!(r.method_name, "transfer");
    assert_eq!(r.contract_version, "v1.2.0");
}

#[test]
fn a_session_with_no_samples_fails_instead_of_completing() {
    let mut r = fresh_record();
    r.start();
    let samples: Vec<u64> = vec![];
    let out = finalize_benchmark(&mut r, &samples, 1_700_000_100_000);
    assert_eq!(out, Err(StatsError::EmptyInput));
    assert_eq!(r.status, BenchmarkStatus::Failed);
    assert_eq!(
        r.error_message.as_deref(),
        Some("benchmark session produced no samples")
    );
    assert_eq!(r.completed_at, Some(1_700_000_100_000));
}

#[test]
fn iteration_count_is_bounded_not_clamped() {
    let base = RunBenchmarkRequest {
        method: "swap".to_string(),
        iterations: 100,
        args_json: None,
        version: None,
        alert_threshold_pct: 10_000,
    };
    assert_eq!(base.validate(), Ok(()));
    let low = RunBenchmarkRequest { iterations: 0, ..base.clone() };
    assert_eq!(low.validate(), Err(RequestError::IterationsOutOfRange));
    let high = RunBenchmarkRequest { iterations: 1_001, ..base.clone() };
    assert_eq!(high.validate(), Err(RequestError::IterationsOutOfRange));
    let one = RunBenchmarkRequest { iterations: 1, ..base.clone() };
    assert_eq!(one.validate(), Ok(()));
    let max = RunBenchmarkRequest { iterations: 1_000, ..base };
    assert_eq!(max.validate(), Ok(()));
}

#[test]
fn request_defaults() {
    assert_eq!(default_iterations(), 100);
    assert_eq!(default_threshold(), 10_000);
    assert_eq!(default_version_limit(), 20);
    assert!(default_true());
}

#[test]
fn paginated_response_rounds_pages_up() {
    let r = PaginatedResponse::new(vec![1u32, 2, 3], 3, 1, 50);
    assert_eq!(r.total_pages, 1);
    assert_eq!(r.items, vec![1, 2, 3]);
    assert_eq!(r.total, 3);
    assert_eq!(r.page, 1);
    assert_eq!(r.page_size, 50);
    let empty: Vec<u32> = vec![];
    assert_eq!(PaginatedResponse::new(empty, 0, 1, 50).total_pages, 0);
    assert_eq!(PaginatedResponse::new(vec![0u8], 50, 1, 50).total_pages, 1);
    assert_eq!(PaginatedResponse::new(vec![0u8], 51, 1, 50).total_pages, 2);
    assert_eq!(PaginatedResponse::new(vec![0u8], 100, 2, 50).total_pages, 2);
}
