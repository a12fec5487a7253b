use registry_quality::regression::detect_regression;
use registry_quality::{BenchmarkRecord, BenchmarkStatus};

fn completed_record(id: u128, p95_us: u64) -> BenchmarkRecord {
    BenchmarkRecord {
        id,
        contract_id: 42,
        contract_version: "v1.0.0".to_string(),
        method_name: "transfer".to_string(),
        iterations: 100,
        args_json: None,
        min_us: p95_us / 2,
        max_us: p95_us,
        avg_us: p95_us / 2,
        p95_us,
        p99_us: p95_us,
        stddev_us: 0,
        contract_size_bytes: None,
        status: BenchmarkStatus::Completed,
        error_message: None,
        created_at: 0,
        completed_at: Some(0),
    }
}

#[test]
fn fifteen_percent_slowdown_crosses_a_ten_percent_threshold() {
    // Baseline p95 = 100 ms, current p95 = 115 ms, threshold 10%.
    let baseline = Some(completed_record(1, 100_000));
    let current = completed_record(2, 115_000);
    let (comparison, alert) = detect_regression(&current, &baseline, 10_000, 99, 5);
    let c = comparison.unwrap();
    assert_eq!(c.delta_us, 15_000);
    assert_eq!(c.delta_pct, 15_000); // 15.0 percent
    assert!(c.is_regression);
    assert_eq!(c.previous_benchmark_id, 1);
    assert_eq!(c.previous_p95_us, 100_000);
    assert_eq!(c.current_p95_us, 115_000);
    let a = alert.unwrap();
    assert_eq!(a.regression_pct, 15_000);
    assert_eq!(a.alert_threshold_pct, 10_000);
    assert_eq!(a.baseline_benchmark_id, 1);
    assert_eq!(a.current_benchmark_id, 2);
    assert_eq!(a.id, 99);
    assert_eq!(a.created_at, 5);
    assert!(!a.resolved);
}

#[test]
fn below_threshold_keeps_the_comparison_but_not_the_alert() {
    // Same inputs, threshold 20%: no alert, comparison still present.
    let baseline = Some(completed_record(1, 100_000));
    let current = completed_record(2, 115_000);
    let (comparison, alert) = detect_regression(&current, &baseline, 20_000, 99, 5);
    let c = comparison.unwrap();
    assert_eq!(c.delta_pct, 15_000);
    assert!(!c.is_regression);
    assert!(alert.is_none());
}

#[test]
fn improvements_are_never_regressions() {
    let baseline = Some(completed_record(1, 100_000));
    let current = completed_record(2, 40_000);
    let (comparison, alert) = detect_regression(&current, &baseline, 0, 99, 5);
    let c = comparison.unwrap();
    assert_eq!(c.delta_us, -60_000);
    assert_eq!(c.delta_pct, -60_000);
    assert!(!c.is_regression);
    assert!(alert.is_none());
}

#[test]
fn no_baseline_means_no_comparison_and_no_alert() {
    let current = completed_record(2, 115_000);
    let (comparison, alert) = detect_regression(&current, &None, 10_000, 99, 5);
    assert!(comparison.is_none());
    assert!(alert.is_none());
}

#[test]
fn zero_baseline_with_no_change_is_no_regression() {
    let baseline = Some(completed_record(1, 0));
    let current = completed_record(2, 0);
    let (comparison, alert) = detect_regression(&current, &baseline, 10_000, 99, 5);
    let c = comparison.unwrap();
    assert_eq!(c.delta_pct, 0);
    assert!(!c.is_regression);
    assert!(alert.is_none());
}

#[test]
fn any_slowdown_from_a_zero_baseline_counts_as_full_regression() {
    let baseline = Some(completed_record(1, 0));
    let current = completed_record(2, 5);
    let (comparison, alert) = detect_regression(&current, &baseline, 10_000, 99, 5);
    let c = comparison.unwrap();
    assert_eq!(c.delta_pct, 100_000);
    assert!(c.is_regression);
    assert!(alert.is_some());
}

#[test]
fn resolving_an_alert_only_flips_the_flag() {
    let baseline = Some(completed_record(1, 100_000));
    let current = completed_record(2, 115_000);
    let (_, alert) = detect_regression(&current, &baseline, 10_000, 99, 5);
    let mut a = alert.unwrap();
    let before = a.clone();
    a.resolve();
    assert!(a.resolved);
    assert_eq!(a.regression_pct, before.regression_pct);
    assert_eq!(a.id, before.id);
}

#[test]
fn truncation_of_fractional_percentages_is_toward_zero() {
    // Baseline 3 us, current 4 us: exact delta is 33.333...%.
    let baseline = Some(completed_record(1, 3));
    let current = completed_record(2, 4);
    let (comparison, _) = detect_regression(&current, &baseline, 40_000, 99, 5);
    assert_eq!(comparison.unwrap().delta_pct, 33_333);
    // Baseline 3 us, current 2 us: exact delta is -33.333...%.
    let baseline = Some(completed_record(1, 3));
    let current = completed_record(2, 2);
    let (comparison, _) = detect_regression(&current, &baseline, 40_000, 99, 5);
    assert_eq!(comparison.unwrap().delta_pct, -33_333);
}
