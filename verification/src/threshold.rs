//! Threshold evaluator: compares a score breakdown against a configured
//! minimum-quality gate and the security critical-finding rule, producing
//! pass/fail plus itemized violations.
//!
//! The violation order is deterministic: the critical-finding violation (if
//! any) first, then the failing dimensions in the order code, test, doc,
//! security, overall.

use vstd::prelude::*;
use crate::score::QualityScoreBreakdown;

verus! {

broadcast use vstd::string::group_string_axioms;

/// A quality gate: minimum scores (millipoints) that a breakdown must meet,
/// plus the critical-finding rule. One active threshold per artifact; the
/// evaluator consumes it read-only.
#[derive(Debug, Clone, PartialEq)]
pub struct QualityThreshold {
    pub id: u128,
    pub contract_id: u128,
    pub min_overall_score: u64,
    pub min_code_score: u64,
    pub min_test_score: u64,
    pub min_doc_score: u64,
    pub min_security_score: u64,
    pub fail_on_critical_finding: bool,
    pub created_by: String,
    /// Unix epoch milliseconds.
    pub created_at: i64,
    /// Unix epoch milliseconds.
    pub updated_at: i64,
}

/// One failed requirement: the dimension, the required and actual values,
/// and the gap between them.
#[derive(Debug, Clone, PartialEq)]
pub struct ThresholdViolation {
    pub dimension: String,
    pub required: u64,
    pub actual: u64,
    pub gap: u64,
}

/// Mathematical model of a violation.
pub struct ViolationView {
    pub dimension: Seq<char>,
    pub required: int,
    pub actual: int,
    pub gap: int,
}

impl View for ThresholdViolation {
    type V = ViolationView;

    open spec fn view(&self) -> ViolationView {
        ViolationView {
            dimension: self.dimension@,
            required: self.required as int,
            actual: self.actual as int,
            gap: self.gap as int,
        }
    }
}

/// Outcome of checking a breakdown against a threshold.
#[derive(Debug, Clone, PartialEq)]
pub struct ThresholdCheckResult {
    pub passed: bool,
    pub violations: Vec<ThresholdViolation>,
}

/// A score-based violation: the gap is how far the actual score falls short.
pub open spec fn score_violation(dim: Seq<char>, required: int, actual: int) -> ViolationView {
    ViolationView { dimension: dim, required: required, actual: actual, gap: required - actual }
}

/// The critical-finding violation: zero findings were required; the gap is
/// the finding count itself.
pub open spec fn critical_violation(count: int) -> ViolationView {
    ViolationView { dimension: "critical_finding"@, required: 0, actual: count, gap: count }
}

/// The exact violation list the evaluator owes for the given inputs.
pub open spec fn expected_violations(
    b: QualityScoreBreakdown,
    t: QualityThreshold,
    critical_count: u64,
) -> Seq<ViolationView> {
    (if t.fail_on_critical_finding && critical_count > 0 {
        seq![critical_violation(critical_count as int)]
    } else {
        Seq::<ViolationView>::empty()
    }) + (if b.code_score < t.min_code_score {
        seq![score_violation("code"@, t.min_code_score as int, b.code_score as int)]
    } else {
        Seq::<ViolationView>::empty()
    }) + (if b.test_score < t.min_test_score {
        seq![score_violation("test"@, t.min_test_score as int, b.test_score as int)]
    } else {
        Seq::<ViolationView>::empty()
    }) + (if b.doc_score < t.min_doc_score {
        seq![score_violation("doc"@, t.min_doc_score as int, b.doc_score as int)]
    } else {
        Seq::<ViolationView>::empty()
    }) + (if b.security_score < t.min_security_score {
        seq![score_violation("security"@, t.min_security_score as int, b.security_score as int)]
    } else {
        Seq::<ViolationView>::empty()
    }) + (if b.overall_score < t.min_overall_score {
        seq![score_violation("overall"@, t.min_overall_score as int, b.overall_score as int)]
    } else {
        Seq::<ViolationView>::empty()
    })
}

/// Whether the breakdown meets every configured minimum outright.
pub open spec fn meets_threshold(
    b: QualityScoreBreakdown,
    t: QualityThreshold,
    critical_count: u64,
) -> bool {
    &&& !(t.fail_on_critical_finding && critical_count > 0)
    &&& b.code_score >= t.min_code_score
    &&& b.test_score >= t.min_test_score
    &&& b.doc_score >= t.min_doc_score
    &&& b.security_score >= t.min_security_score
    &&& b.overall_score >= t.min_overall_score
}

/// Law: a breakdown meets the threshold exactly when the owed violation
/// list is empty.
pub proof fn lemma_passed_iff_no_violations(
    b: QualityScoreBreakdown,
    t: QualityThreshold,
    critical_count: u64,
)
    ensures
        meets_threshold(b, t, critical_count) <==> expected_violations(b, t, critical_count).len()
            == 0,
{
}

/// Compare a breakdown against a threshold, given the number of unresolved
/// critical security findings. Emits one violation per failing requirement,
/// critical-finding rule first, and passes exactly when none fail.
pub fn evaluate_threshold(
    b: &QualityScoreBreakdown,
    t: &QualityThreshold,
    critical_count: u64,
) -> (r: ThresholdCheckResult)
    ensures
        r.violations@.map_values(|v: ThresholdViolation| v@) == expected_violations(
            *b,
            *t,
            critical_count,
        ),
        r.passed <==> meets_threshold(*b, *t, critical_count),
        r.passed <==> r.violations@.len() == 0,
{
    let mut violations: Vec<ThresholdViolation> = Vec::new();
    if t.fail_on_critical_finding && critical_count > 0 {
        violations.push(ThresholdViolation {
            dimension: "critical_finding".to_string(),
            required: 0,
            actual: critical_count,
            gap: critical_count,
        });
    }
    if b.code_score < t.min_code_score {
        violations.push(ThresholdViolation {
            dimension: "code".to_string(),
            required: t.min_code_score,
            actual: b.code_score,
            gap: t.min_code_score - b.code_score,
        });
    }
    if b.test_score < t.min_test_score {
        violations.push(ThresholdViolation {
            dimension: "test".to_string(),
            required: t.min_test_score,
            actual: b.test_score,
            gap: t.min_test_score - b.test_score,
        });
    }
    if b.doc_score < t.min_doc_score {
        violations.push(ThresholdViolation {
            dimension: "doc".to_string(),
            required: t.min_doc_score,
            actual: b.doc_score,
            gap: t.min_doc_score - b.doc_score,
        });
    }
    if b.security_score < t.min_security_score {
        violations.push(ThresholdViolation {
            dimension: "security".to_string(),
            required: t.min_security_score,
            actual: b.security_score,
            gap: t.min_security_score - b.security_score,
        });
    }
    if b.overall_score < t.min_overall_score {
        violations.push(ThresholdViolation {
            dimension: "overall".to_string(),
            required: t.min_overall_score,
            actual: b.overall_score,
            gap: t.min_overall_score - b.overall_score,
        });
    }
    let passed = violations.len() == 0;
    proof {
        assert(violations@.map_values(|v: ThresholdViolation| v@) =~= expected_violations(
            *b,
            *t,
            critical_count,
        ));
    }
    ThresholdCheckResult { passed, violations }
}

} // verus!
