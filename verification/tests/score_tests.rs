use registry_quality::score::calculate_quality_score;
use registry_quality::{
    CodeMetrics, DocMetrics, QualityBadge, QualityWeights, ScoreError, SecurityMetrics,
    TestMetrics,
};

fn perfect_code() -> CodeMetrics {
    CodeMetrics {
        lines_of_code: 1_000,
        blank_lines: 100,
        comment_lines: 200,
        cyclomatic_complexity: 0,
        max_function_complexity: 5,
        function_count: 40,
        avg_function_length: 20_000,
        deeply_nested_count: 0,
    }
}

fn perfect_tests() -> TestMetrics {
    TestMetrics {
        test_count: 100,
        test_lines: 1_000,
        line_coverage: 1_000_000,
        function_coverage: 1_000_000,
        branch_coverage: 1_000_000,
        test_to_code_ratio: 1_000,
        has_integration_tests: true,
        has_property_tests: true,
    }
}

fn perfect_docs() -> DocMetrics {
    DocMetrics {
        public_fn_doc_coverage: 1_000_000,
        type_doc_coverage: 1_000_000,
        has_readme: true,
        has_changelog: true,
        has_license: true,
        example_count: 5,
    }
}

fn clean_security() -> SecurityMetrics {
    SecurityMetrics {
        audit_score: 100_000,
        critical_findings: 0,
        high_findings: 0,
        medium_findings: 0,
        low_findings: 0,
        is_verified: true,
        has_formal_audit: true,
    }
}

#[test]
fn perfect_inputs_score_one_hundred() {
    let weights = QualityWeights::default();
    let (breakdown, badge) = calculate_quality_score(
        &perfect_code(),
        &perfect_tests(),
        &perfect_docs(),
        &clean_security(),
        &weights,
    )
    .unwrap();
    assert_eq!(breakdown.code_score, 100_000);
    assert_eq!(breakdown.test_score, 100_000);
    assert_eq!(breakdown.doc_score, 100_000);
    assert_eq!(breakdown.security_score, 100_000);
    assert_eq!(breakdown.overall_score, 100_000);
    assert_eq!(badge, QualityBadge::Excellent);
}

#[test]
fn overall_is_exact_weighted_sum() {
    // Dimension scores engineered to 80, 20, 10 and 50 points; with the
    // default weights the overall is
    // (80*0.25 + 20*0.30 + 10*0.20 + 50*0.25) = 40.5 points.
    let code = CodeMetrics { cyclomatic_complexity: 5_000, ..perfect_code() };
    let test = TestMetrics {
        line_coverage: 500_000,
        function_coverage: 0,
        branch_coverage: 0,
        test_to_code_ratio: 0,
        has_integration_tests: false,
        has_property_tests: false,
        ..perfect_tests()
    };
    let doc = DocMetrics {
        public_fn_doc_coverage: 200_000,
        type_doc_coverage: 0,
        has_readme: false,
        has_changelog: false,
        has_license: false,
        example_count: 0,
    };
    let sec = SecurityMetrics {
        audit_score: 50_000,
        is_verified: false,
        has_formal_audit: false,
        ..clean_security()
    };
    let weights = QualityWeights::default();
    let (breakdown, badge) =
        calculate_quality_score(&code, &test, &doc, &sec, &weights).unwrap();
    assert_eq!(breakdown.code_score, 80_000);
    assert_eq!(breakdown.test_score, 20_000);
    assert_eq!(breakdown.doc_score, 10_000);
    assert_eq!(breakdown.security_score, 50_000);
    assert_eq!(breakdown.overall_score, 40_500);
    assert_eq!(badge, QualityBadge::Poor);
}

#[test]
fn critical_finding_caps_security_score_at_forty() {
    let sec = SecurityMetrics { critical_findings: 1, ..clean_security() };
    let weights = QualityWeights::default();
    let (breakdown, _) = calculate_quality_score(
        &perfect_code(),
        &perfect_tests(),
        &perfect_docs(),
        &sec,
        &weights,
    )
    .unwrap();
    assert_eq!(breakdown.security_score, 40_000);
}

#[test]
fn invalid_weights_are_rejected_before_scoring() {
    let weights = QualityWeights { code: 500_000, tests: 500_000, docs: 100, security: 0 };
    let r = calculate_quality_score(
        &perfect_code(),
        &perfect_tests(),
        &perfect_docs(),
        &clean_security(),
        &weights,
    );
    assert_eq!(r, Err(ScoreError::InvalidWeights));
}

#[test]
fn weights_tolerance_is_one_part_per_million() {
    let slightly_low = QualityWeights { code: 249_999, tests: 300_000, docs: 200_000, security: 250_000 };
    assert!(slightly_low.is_valid());
    let too_low = QualityWeights { code: 249_998, tests: 300_000, docs: 200_000, security: 250_000 };
    assert!(!too_low.is_valid());
    let slightly_high = QualityWeights { code: 250_001, tests: 300_000, docs: 200_000, security: 250_000 };
    assert!(slightly_high.is_valid());
    let too_high = QualityWeights { code: 250_002, tests: 300_000, docs: 200_000, security: 250_000 };
    assert!(!too_high.is_valid());
}

#[test]
fn malformed_metrics_are_rejected() {
    let bad_tests = TestMetrics { line_coverage: 1_000_001, ..perfect_tests() };
    let r = calculate_quality_score(
        &perfect_code(),
        &bad_tests,
        &perfect_docs(),
        &clean_security(),
        &QualityWeights::default(),
    );
    assert_eq!(r, Err(ScoreError::InvalidMetrics));
}

#[test]
fn scores_move_in_the_expected_direction() {
    let weights = QualityWeights::default();
    let complex_code = CodeMetrics { cyclomatic_complexity: 12_000, ..perfect_code() };
    let r_simple = calculate_quality_score(
        &perfect_code(),
        &perfect_tests(),
        &perfect_docs(),
        &clean_security(),
        &weights,
    )
    .unwrap();
    let r_complex = calculate_quality_score(
        &complex_code,
        &perfect_tests(),
        &perfect_docs(),
        &clean_security(),
        &weights,
    )
    .unwrap();
    assert!(r_complex.0.code_score < r_simple.0.code_score);
    assert!(r_complex.0.overall_score <= r_simple.0.overall_score);

    let risky = SecurityMetrics { high_findings: 3, ..clean_security() };
    let r_risky = calculate_quality_score(
        &perfect_code(),
        &perfect_tests(),
        &perfect_docs(),
        &risky,
        &weights,
    )
    .unwrap();
    assert!(r_risky.0.security_score < r_simple.0.security_score);
}

#[test]
fn recomputation_is_bit_identical() {
    let code = CodeMetrics { cyclomatic_complexity: 7_321, deeply_nested_count: 3, ..perfect_code() };
    let test = TestMetrics { line_coverage: 731_442, ..perfect_tests() };
    let sec = SecurityMetrics { high_findings: 2, low_findings: 7, ..clean_security() };
    let weights = QualityWeights::default();
    let first =
        calculate_quality_score(&code, &test, &perfect_docs(), &sec, &weights).unwrap();
    let second =
        calculate_quality_score(&code, &test, &perfect_docs(), &sec, &weights).unwrap();
    assert_eq!(first.0, second.0);
    assert_eq!(first.1, second.1);
}
