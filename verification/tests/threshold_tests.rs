use registry_quality::threshold::evaluate_threshold;
use registry_quality::{QualityScoreBreakdown, QualityThreshold};

fn breakdown(code: u64, test: u64, doc: u64, security: u64, overall: u64) -> QualityScoreBreakdown {
    QualityScoreBreakdown {
        code_score: code,
        test_score: test,
        doc_score: doc,
        security_score: security,
        overall_score: overall,
    }
}

fn gate(
    overall: u64,
    code: u64,
    test: u64,
    doc: u64,
    security: u64,
    fail_on_critical: bool,
) -> QualityThreshold {
    QualityThreshold {
        id: 1,
        contract_id: 2,
        min_overall_score: overall,
        min_code_score: code,
        min_test_score: test,
        min_doc_score: doc,
        min_security_score: security,
        fail_on_critical_finding: fail_on_critical,
        created_by: "auditor".to_string(),
        created_at: 0,
        updated_at: 0,
    }
}

#[test]
fn single_failing_dimension_yields_one_violation() {
    // Breakdown {code: 80, test: 40, doc: 90, security: 95} against
    // minimums {code: 70, test: 60, doc: 50, security: 60}: only the test
    // dimension fails, with a gap of 20 points.
    let b = breakdown(80_000, 40_000, 90_000, 95_000, 76_000);
    let t = gate(0, 70_000, 60_000, 50_000, 60_000, false);
    let r = evaluate_threshold(&b, &t, 0);
    assert!(!r.passed);
    assert_eq!(r.violations.len(), 1);
    assert_eq!(r.violations[0].dimension, "test");
    assert_eq!(r.violations[0].required, 60_000);
    assert_eq!(r.violations[0].actual, 40_000);
    assert_eq!(r.violations[0].gap, 20_000);
}

#[test]
fn meeting_every_minimum_passes() {
    let b = breakdown(80_000, 70_000, 90_000, 95_000, 82_000);
    let t = gate(80_000, 70_000, 60_000, 50_000, 60_000, true);
    let r = evaluate_threshold(&b, &t, 0);
    assert!(r.passed);
    assert!(r.violations.is_empty());
}

#[test]
fn critical_finding_violation_comes_first() {
    let b = breakdown(50_000, 90_000, 90_000, 90_000, 80_000);
    let t = gate(0, 70_000, 0, 0, 0, true);
    let r = evaluate_threshold(&b, &t, 2);
    assert!(!r.passed);
    assert_eq!(r.violations.len(), 2);
    assert_eq!(r.violations[0].dimension, "critical_finding");
    assert_eq!(r.violations[0].required, 0);
    assert_eq!(r.violations[0].actual, 2);
    assert_eq!(r.violations[0].gap, 2);
    assert_eq!(r.violations[1].dimension, "code");
    assert_eq!(r.violations[1].gap, 20_000);
}

#[test]
fn critical_findings_are_ignored_when_rule_is_off() {
    let b = breakdown(90_000, 90_000, 90_000, 90_000, 90_000);
    let t = gate(0, 0, 0, 0, 0, false);
    let r = evaluate_threshold(&b, &t, 5);
    assert!(r.passed);
    assert!(r.violations.is_empty());
}

#[test]
fn dimension_order_is_deterministic() {
    let b = breakdown(10_000, 10_000, 10_000, 10_000, 10_000);
    let t = gate(50_000, 50_000, 50_000, 50_000, 50_000, true);
    let r = evaluate_threshold(&b, &t, 1);
    let dims: Vec<&str> = r.violations.iter().map(|v| v.dimension.as_str()).collect();
    assert_eq!(dims, vec!["critical_finding", "code", "test", "doc", "security", "overall"]);
    for v in &r.violations[1..] {
        assert_eq!(v.gap, 40_000);
    }
}

#[test]
fn exact_minimum_is_not_a_violation() {
    let b = breakdown(70_000, 60_000, 50_000, 60_000, 60_000);
    let t = gate(60_000, 70_000, 60_000, 50_000, 60_000, false);
    let r = evaluate_threshold(&b, &t, 0);
    assert!(r.passed);
}
