use registry_quality::api::{make_quality_record, resolve_weights};
use registry_quality::audit::{CheckCategory, CheckStatus, DetectionMethod, Severity};
use registry_quality::{
    CodeMetrics, DocMetrics, QualityWeights, ScoreError, SecurityMetrics, TestMetrics,
};

#[test]
fn category_display_names() {
    assert_eq!(CheckCategory::InputValidation.display_name(), "Input Validation");
    assert_eq!(
        CheckCategory::AuthenticationAuthorization.display_name(),
        "Authentication & Authorization"
    );
    assert_eq!(CheckCategory::CrossContractCalls.display_name(), "Cross-Contract Calls");
    assert_eq!(CheckCategory::NumericalSafety.display_name(), "Numerical Safety");
    assert_eq!(CheckCategory::ResourceLimits.display_name(), "Resource Limits");
}

#[test]
fn severity_rank_preserves_the_order() {
    let order = [
        Severity::Info,
        Severity::Low,
        Severity::Medium,
        Severity::High,
        Severity::Critical,
    ];
    for pair in order.windows(2) {
        assert!(pair[0].rank() < pair[1].rank());
    }
    assert_eq!(Severity::Info.rank(), 0);
    assert_eq!(Severity::Critical.rank(), 4);
    assert_eq!(Severity::Medium.label(), "Medium");
}

#[test]
fn detection_method_kinds() {
    let auto = DetectionMethod::Automatic { patterns: vec!["unwrap(".to_string()] };
    let manual = DetectionMethod::Manual;
    let semi = DetectionMethod::SemiAutomatic { patterns: vec![] };
    assert_eq!(auto.kind_label(), "automatic");
    assert_eq!(manual.kind_label(), "manual");
    assert_eq!(semi.kind_label(), "semi_automatic");
    assert!(auto.has_patterns());
    assert!(!manual.has_patterns());
    assert!(semi.has_patterns());
}

#[test]
fn check_status_defaults_to_pending() {
    assert_eq!(CheckStatus::default(), CheckStatus::Pending);
}

#[test]
fn omitted_weights_resolve_to_the_defaults() {
    let d = resolve_weights(None);
    assert_eq!(d.code, 250_000);
    assert_eq!(d.tests, 300_000);
    assert_eq!(d.docs, 200_000);
    assert_eq!(d.security, 250_000);
    assert!(d.is_valid());
    let custom = QualityWeights { code: 400_000, tests: 300_000, docs: 100_000, security: 200_000 };
    assert_eq!(resolve_weights(Some(custom.clone())), custom);
}

#[test]
fn quality_record_carries_scores_and_badge_label() {
    let code = CodeMetrics {
        lines_of_code: 500,
        blank_lines: 50,
        comment_lines: 60,
        cyclomatic_complexity: 0,
        max_function_complexity: 8,
        function_count: 20,
        avg_function_length: 25_000,
        deeply_nested_count: 0,
    };
    let test = TestMetrics {
        test_count: 40,
        test_lines: 400,
        line_coverage: 1_000_000,
        function_coverage: 1_000_000,
        branch_coverage: 1_000_000,
        test_to_code_ratio: 1_000,
        has_integration_tests: true,
        has_property_tests: true,
    };
    let doc = DocMetrics {
        public_fn_doc_coverage: 1_000_000,
        type_doc_coverage: 1_000_000,
        has_readme: true,
        has_changelog: true,
        has_license: true,
        example_count: 5,
    };
    let sec = SecurityMetrics {
        audit_score: 100_000,
        critical_findings: 0,
        high_findings: 0,
        medium_findings: 0,
        low_findings: 0,
        is_verified: true,
        has_formal_audit: true,
    };
    let rec = make_quality_record(
        1,
        2,
        "v2.0.0".to_string(),
        &code,
        &test,
        &doc,
        &sec,
        &QualityWeights::default(),
        77,
    )
    .unwrap();
    assert_eq!(rec.overall_score, 100_000);
    assert_eq!(rec.badge, "Excellent");
    assert_eq!(rec.contract_version, "v2.0.0");
    assert_eq!(rec.computed_at, 77);
    assert_eq!(rec.code_metrics, code);

    let bad = QualityWeights { code: 1, tests: 1, docs: 1, security: 1 };
    let err = make_quality_record(
        1,
        2,
        "v2.0.0".to_string(),
        &code,
        &test,
        &doc,
        &sec,
        &bad,
        77,
    );
    assert_eq!(err, Err(ScoreError::InvalidWeights));
}
