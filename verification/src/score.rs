//! Score calculator: reduces four raw metric sets to four dimension scores
//! (each in `0..=100_000` millipoints) and combines them, using a validated
//! weight set, into a weighted overall score and a badge.
//!
//! Every per-dimension formula is monotonic in each input's expected
//! direction (higher coverage raises the test score, higher complexity
//! lowers the code score, findings lower the security score) and bounded to
//! `[0, 100]` points. A single critical security finding caps the security
//! score at 40 points regardless of every other input.

use vstd::prelude::*;
use crate::badge::{badge_of, QualityBadge};

verus! {

/// Upper bound accepted for raw counts and milli-valued averages; inputs
/// above it are rejected as malformed rather than risking overflow.
pub const METRIC_LIMIT: u64 = 1_000_000_000_000;

/// Raw source-code metrics, already extracted from the artifact.
#[derive(Debug, Clone, Copy, PartialEq, Eq, Structural)]
pub struct CodeMetrics {
    pub lines_of_code: u64,
    pub blank_lines: u64,
    pub comment_lines: u64,
    /// Average cyclomatic complexity across all functions, in thousandths.
    pub cyclomatic_complexity: u64,
    /// Worst single function's cyclomatic complexity.
    pub max_function_complexity: u64,
    pub function_count: u64,
    /// Average function length, in thousandths of a line.
    pub avg_function_length: u64,
    /// Number of blocks nested more than three levels deep.
    pub deeply_nested_count: u64,
}

/// Raw test-quality metrics.
#[derive(Debug, Clone, Copy, PartialEq, Eq, Structural)]
pub struct TestMetrics {
    pub test_count: u64,
    pub test_lines: u64,
    /// Fraction of lines covered, in parts per million (`0..=1_000_000`).
    pub line_coverage: u64,
    /// Fraction of functions covered, in parts per million.
    pub function_coverage: u64,
    /// Fraction of branches covered, in parts per million.
    pub branch_coverage: u64,
    /// Test lines per source line, in thousandths.
    pub test_to_code_ratio: u64,
    pub has_integration_tests: bool,
    pub has_property_tests: bool,
}

/// Raw documentation-quality metrics.
#[derive(Debug, Clone, Copy, PartialEq, Eq, Structural)]
pub struct DocMetrics {
    /// Fraction of public functions with a doc comment, in parts per million.
    pub public_fn_doc_coverage: u64,
    /// Fraction of public types with a doc comment, in parts per million.
    pub type_doc_coverage: u64,
    pub has_readme: bool,
    pub has_changelog: bool,
    pub has_license: bool,
    pub example_count: u64,
}

/// Raw security-audit metrics, derived from an audit record.
#[derive(Debug, Clone, Copy, PartialEq, Eq, Structural)]
pub struct SecurityMetrics {
    /// Overall audit score in millipoints (`0..=100_000`).
    pub audit_score: u64,
    pub critical_findings: u64,
    pub high_findings: u64,
    pub medium_findings: u64,
    pub low_findings: u64,
    pub is_verified: bool,
    pub has_formal_audit: bool,
}

/// Weights used when combining dimension scores into the overall score,
/// each in parts per million. The four weights must sum to one million
/// within a tolerance of one part per million; a violation is a validation
/// error, never silently normalized.
#[derive(Debug, Clone, Copy, PartialEq, Eq, Structural)]
pub struct QualityWeights {
    pub code: u32,
    pub tests: u32,
    pub docs: u32,
    pub security: u32,
}

/// Per-dimension score breakdown, each field in millipoints (`0..=100_000`).
#[derive(Debug, Clone, Copy, PartialEq, Eq, Structural)]
pub struct QualityScoreBreakdown {
    pub code_score: u64,
    pub test_score: u64,
    pub doc_score: u64,
    pub security_score: u64,
    pub overall_score: u64,
}

/// Why a quality-score computation was rejected before any scoring.
#[derive(Debug, Clone, Copy, PartialEq, Eq, Structural)]
pub enum ScoreError {
    /// The weights do not sum to one within the documented tolerance.
    InvalidWeights,
    /// A raw metric field lies outside its accepted range.
    InvalidMetrics,
}

/// Sum of the four weights, in parts per million.
pub open spec fn weights_sum(w: QualityWeights) -> int {
    w.code + w.tests + w.docs + w.security
}

/// The weights are valid when their sum deviates from one million parts
/// per million by at most one (the 1e-6 tolerance).
pub open spec fn weights_valid(w: QualityWeights) -> bool {
    999_999 <= weights_sum(w) <= 1_000_001
}

impl QualityWeights {
    /// Whether the four weights sum to 1.0 within the documented tolerance.
    pub fn is_valid(&self) -> (r: bool)
        ensures
            r == weights_valid(*self),
    {
        let sum: u64 = self.code as u64 + self.tests as u64 + self.docs as u64
            + self.security as u64;
        999_999 <= sum && sum <= 1_000_001
    }
}

impl Default for QualityWeights {
    /// The default weight set: code 0.25, tests 0.30, docs 0.20,
    /// security 0.25.
    fn default() -> (r: Self)
        ensures
            r == (QualityWeights { code: 250_000u32, tests: 300_000u32, docs: 200_000u32, security: 250_000u32 }),
            weights_valid(r),
    {
        QualityWeights { code: 250_000, tests: 300_000, docs: 200_000, security: 250_000 }
    }
}

/// Total penalty charged against the code dimension, in millipoints:
/// 4 per thousandth of average cyclomatic complexity, 1000 per point of
/// worst-function complexity above 10, 2000 per deeply nested block, and
/// 1 per two thousandths of a line of average function length above 50.
pub open spec fn code_penalty(m: CodeMetrics) -> int {
    4 * m.cyclomatic_complexity
        + (if m.max_function_complexity > 10 { 1_000 * (m.max_function_complexity - 10) } else { 0 })
        + 2_000 * m.deeply_nested_count
        + (if m.avg_function_length > 50_000 { (m.avg_function_length - 50_000) / 2 } else { 0 })
}

/// Code dimension score: 100 points minus the code penalty, floored at 0.
pub open spec fn code_score_of(m: CodeMetrics) -> int {
    if code_penalty(m) >= 100_000 { 0 } else { 100_000 - code_penalty(m) }
}

/// Test dimension score: up to 40 points for line coverage, 30 for branch
/// coverage and 10 for function coverage (each scaled linearly), 10 for
/// integration tests, 5 for property tests, and up to 5 for the
/// test-to-code ratio (1 point per 0.2 of ratio).
pub open spec fn test_score_of(m: TestMetrics) -> int {
    (m.line_coverage * 40_000 + m.branch_coverage * 30_000 + m.function_coverage * 10_000)
        / 1_000_000
        + (if m.has_integration_tests { 10_000int } else { 0int })
        + (if m.has_property_tests { 5_000int } else { 0int })
        + (if 5 * m.test_to_code_ratio > 5_000 { 5_000int } else { 5 * m.test_to_code_ratio })
}

/// Documentation dimension score: up to 50 points for public-function doc
/// coverage and 20 for type doc coverage (scaled linearly), 10 for a
/// readme, 5 for a changelog, 5 for a license, and 2 per example up to 10.
pub open spec fn doc_score_of(m: DocMetrics) -> int {
    (m.public_fn_doc_coverage * 50_000 + m.type_doc_coverage * 20_000) / 1_000_000
        + (if m.has_readme { 10_000int } else { 0int })
        + (if m.has_changelog { 5_000int } else { 0int })
        + (if m.has_license { 5_000int } else { 0int })
        + (if 2_000 * m.example_count > 10_000 { 10_000int } else { 2_000 * m.example_count })
}

/// Penalty charged against the security dimension, in millipoints:
/// 30 points per critical finding, 10 per high, 3 per medium, 1 per low.
pub open spec fn security_penalty(m: SecurityMetrics) -> int {
    30_000 * m.critical_findings + 10_000 * m.high_findings + 3_000 * m.medium_findings
        + 1_000 * m.low_findings
}

/// Security dimension score: the audit score plus 5 points each for being
/// verified and formally audited, minus the finding penalty, clamped to
/// `[0, 100]` points — and capped at 40 points whenever at least one
/// critical finding is present (the documented penalty floor).
pub open spec fn security_score_of(m: SecurityMetrics) -> int {
    let base = m.audit_score + (if m.is_verified { 5_000int } else { 0int })
        + (if m.has_formal_audit { 5_000int } else { 0int });
    let after = if security_penalty(m) >= base { 0int } else { base - security_penalty(m) };
    let clamped = if after > 100_000 { 100_000int } else { after };
    if m.critical_findings > 0 && clamped > 40_000 { 40_000int } else { clamped }
}

/// Clamp a non-negative millipoint value to the score range `[0, 100_000]`.
pub open spec fn clamp_score(v: int) -> int {
    if v > 100_000 { 100_000int } else if v < 0 { 0int } else { v }
}

/// Overall score: the weighted sum of the four dimension scores (weights in
/// parts per million, division flooring) clamped to `[0, 100]` points.
pub open spec fn overall_of(c: int, t: int, d: int, s: int, w: QualityWeights) -> int {
    clamp_score((c * w.code + t * w.tests + d * w.docs + s * w.security) / 1_000_000)
}

impl CodeMetrics {
    /// The metric ranges accepted by the calculator.
    pub open spec fn valid(&self) -> bool {
        &&& self.lines_of_code <= METRIC_LIMIT
        &&& self.blank_lines <= METRIC_LIMIT
        &&& self.comment_lines <= METRIC_LIMIT
        &&& self.cyclomatic_complexity <= METRIC_LIMIT
        &&& self.max_function_complexity <= METRIC_LIMIT
        &&& self.function_count <= METRIC_LIMIT
        &&& self.avg_function_length <= METRIC_LIMIT
        &&& self.deeply_nested_count <= METRIC_LIMIT
    }

    /// Whether every field lies in its accepted range.
    pub fn is_valid(&self) -> (r: bool)
        ensures
            r == self.valid(),
    {
        self.lines_of_code <= METRIC_LIMIT && self.blank_lines <= METRIC_LIMIT
            && self.comment_lines <= METRIC_LIMIT && self.cyclomatic_complexity <= METRIC_LIMIT
            && self.max_function_complexity <= METRIC_LIMIT && self.function_count <= METRIC_LIMIT
            && self.avg_function_length <= METRIC_LIMIT && self.deeply_nested_count <= METRIC_LIMIT
    }
}

impl TestMetrics {
    /// The metric ranges accepted by the calculator; coverage fractions may
    /// not exceed one million parts per million.
    pub open spec fn valid(&self) -> bool {
        &&& self.test_count <= METRIC_LIMIT
        &&& self.test_lines <= METRIC_LIMIT
        &&& self.line_coverage <= 1_000_000
        &&& self.function_coverage <= 1_000_000
        &&& self.branch_coverage <= 1_000_000
        &&& self.test_to_code_ratio <= METRIC_LIMIT
    }

    /// Whether every field lies in its accepted range.
    pub fn is_valid(&self) -> (r: bool)
        ensures
            r == self.valid(),
    {
        self.test_count <= METRIC_LIMIT && self.test_lines <= METRIC_LIMIT
            && self.line_coverage <= 1_000_000 && self.function_coverage <= 1_000_000
            && self.branch_coverage <= 1_000_000 && self.test_to_code_ratio <= METRIC_LIMIT
    }
}

impl DocMetrics {
    /// The metric ranges accepted by the calculator; doc coverage fractions
    /// may not exceed one million parts per million.
    pub open spec fn valid(&self) -> bool {
        &&& self.public_fn_doc_coverage <= 1_000_000
        &&& self.type_doc_coverage <= 1_000_000
        &&& self.example_count <= METRIC_LIMIT
    }

    /// Whether every field lies in its accepted range.
    pub fn is_valid(&self) -> (r: bool)
        ensures
            r == self.valid(),
    {
        self.public_fn_doc_coverage <= 1_000_000 && self.type_doc_coverage <= 1_000_000
            && self.example_count <= METRIC_LIMIT
    }
}

impl SecurityMetrics {
    /// The metric ranges accepted by the calculator; the audit score is in
    /// millipoints and may not exceed 100 points.
    pub open spec fn valid(&self) -> bool {
        &&& self.audit_score <= 100_000
        &&& self.critical_findings <= METRIC_LIMIT
        &&& self.high_findings <= METRIC_LIMIT
        &&& self.medium_findings <= METRIC_LIMIT
        &&& self.low_findings <= METRIC_LIMIT
    }

    /// Whether every field lies in its accepted range.
    pub fn is_valid(&self) -> (r: bool)
        ensures
            r == self.valid(),
    {
        self.audit_score <= 100_000 && self.critical_findings <= METRIC_LIMIT
            && self.high_findings <= METRIC_LIMIT && self.medium_findings <= METRIC_LIMIT
            && self.low_findings <= METRIC_LIMIT
    }
}

/// The breakdown that the calculator produces for the given inputs: a pure
/// function of the metrics and weights alone.
pub open spec fn breakdown_of(
    code: CodeMetrics,
    test: TestMetrics,
    doc: DocMetrics,
    sec: SecurityMetrics,
    w: QualityWeights,
) -> QualityScoreBreakdown {
    QualityScoreBreakdown {
        code_score: code_score_of(code) as u64,
        test_score: test_score_of(test) as u64,
        doc_score: doc_score_of(doc) as u64,
        security_score: security_score_of(sec) as u64,
        overall_score: overall_of(
            code_score_of(code),
            test_score_of(test),
            doc_score_of(doc),
            security_score_of(sec),
            w,
        ) as u64,
    }
}

/// Every dimension score lies in `[0, 100]` points for valid inputs.
pub proof fn lemma_dimension_scores_in_range(
    code: CodeMetrics,
    test: TestMetrics,
    doc: DocMetrics,
    sec: SecurityMetrics,
)
    requires
        code.valid(),
        test.valid(),
        doc.valid(),
        sec.valid(),
    ensures
        0 <= code_score_of(code) <= 100_000,
        0 <= test_score_of(test) <= 100_000,
        0 <= doc_score_of(doc) <= 100_000,
        0 <= security_score_of(sec) <= 100_000,
{
}

/// Compute the code dimension score.
fn compute_code_score(m: &CodeMetrics) -> (r: u64)
    requires
        m.valid(),
    ensures
        r == code_score_of(*m),
        r <= 100_000,
{
    let complexity_pen: u64 = 4 * m.cyclomatic_complexity;
    let worst_fn_pen: u64 = if m.max_function_complexity > 10 {
        1_000 * (m.max_function_complexity - 10)
    } else {
        0
    };
    let nesting_pen: u64 = 2_000 * m.deeply_nested_count;
    let length_pen: u64 = if m.avg_function_length > 50_000 {
        (m.avg_function_length - 50_000) / 2
    } else {
        0
    };
    let penalty: u64 = complexity_pen + worst_fn_pen + nesting_pen + length_pen;
    if penalty >= 100_000 {
        0
    } else {
        100_000 - penalty
    }
}

/// Compute the test dimension score.
fn compute_test_score(m: &TestMetrics) -> (r: u64)
    requires
        m.valid(),
    ensures
        r == test_score_of(*m),
        r <= 100_000,
{
    let coverage: u64 = (m.line_coverage * 40_000 + m.branch_coverage * 30_000
        + m.function_coverage * 10_000) / 1_000_000;
    let integration_bonus: u64 = if m.has_integration_tests { 10_000 } else { 0 };
    let property_bonus: u64 = if m.has_property_tests { 5_000 } else { 0 };
    let ratio_bonus: u64 = if 5 * m.test_to_code_ratio > 5_000 {
        5_000
    } else {
        5 * m.test_to_code_ratio
    };
    coverage + integration_bonus + property_bonus + ratio_bonus
}

/// Compute the documentation dimension score.
fn compute_doc_score(m: &DocMetrics) -> (r: u64)
    requires
        m.valid(),
    ensures
        r == doc_score_of(*m),
        r <= 100_000,
{
    let coverage: u64 = (m.public_fn_doc_coverage * 50_000 + m.type_doc_coverage * 20_000)
        / 1_000_000;
    let readme_bonus: u64 = if m.has_readme { 10_000 } else { 0 };
    let changelog_bonus: u64 = if m.has_changelog { 5_000 } else { 0 };
    let license_bonus: u64 = if m.has_license { 5_000 } else { 0 };
    let example_bonus: u64 = if 2_000 * m.example_count > 10_000 {
        10_000
    } else {
        2_000 * m.example_count
    };
    coverage + readme_bonus + changelog_bonus + license_bonus + example_bonus
}

/// Compute the security dimension score, with the critical-finding cap.
fn compute_security_score(m: &SecurityMetrics) -> (r: u64)
    requires
        m.valid(),
    ensures
        r == security_score_of(*m),
        r <= 100_000,
        m.critical_findings > 0 ==> r <= 40_000,
{
    let bonus: u64 = (if m.is_verified { 5_000u64 } else { 0u64 })
        + (if m.has_formal_audit { 5_000u64 } else { 0u64 });
    let base: u64 = m.audit_score + bonus;
    let penalty: u64 = 30_000 * m.critical_findings + 10_000 * m.high_findings
        + 3_000 * m.medium_findings + 1_000 * m.low_findings;
    let after: u64 = if penalty >= base { 0 } else { base - penalty };
    let clamped: u64 = if after > 100_000 { 100_000 } else { after };
    if m.critical_findings > 0 && clamped > 40_000 {
        40_000
    } else {
        clamped
    }
}

/// Combine four raw metric sets and a weight set into the score breakdown
/// and badge.
///
/// The weights are validated before any scoring, then the metric ranges;
/// the result is `Ok` exactly when both checks pass. The badge is derived
/// from the overall score and never computed independently.
pub fn calculate_quality_score(
    code: &CodeMetrics,
    test: &TestMetrics,
    doc: &DocMetrics,
    sec: &SecurityMetrics,
    weights: &QualityWeights,
) -> (r: Result<(QualityScoreBreakdown, QualityBadge), ScoreError>)
    ensures
        r is Ok <==> weights_valid(*weights) && code.valid() && test.valid() && doc.valid()
            && sec.valid(),
        !weights_valid(*weights) ==> r == Err::<(QualityScoreBreakdown, QualityBadge), ScoreError>(
            ScoreError::InvalidWeights,
        ),
        weights_valid(*weights) && !(code.valid() && test.valid() && doc.valid() && sec.valid())
            ==> r == Err::<(QualityScoreBreakdown, QualityBadge), ScoreError>(
            ScoreError::InvalidMetrics,
        ),
        r matches Ok(p) ==> p.0 == breakdown_of(*code, *test, *doc, *sec, *weights)
            && p.1 == badge_of(p.0.overall_score) && p.0.overall_score <= 100_000,
{
    if !weights.is_valid() {
        return Err(ScoreError::InvalidWeights);
    }
    if !(code.is_valid() && test.is_valid() && doc.is_valid() && sec.is_valid()) {
        return Err(ScoreError::InvalidMetrics);
    }
    let code_score: u64 = compute_code_score(code);
    let test_score: u64 = compute_test_score(test);
    let doc_score: u64 = compute_doc_score(doc);
    let security_score: u64 = compute_security_score(sec);
    proof {
        assert(code_score * (weights.code as u64) <= 100_000u64 * 4_294_967_295u64)
            by (nonlinear_arith)
            requires
                code_score <= 100_000u64,
                weights.code as u64 <= 4_294_967_295u64,
        ;
        assert(test_score * (weights.tests as u64) <= 100_000u64 * 4_294_967_295u64)
            by (nonlinear_arith)
            requires
                test_score <= 100_000u64,
                weights.tests as u64 <= 4_294_967_295u64,
        ;
        assert(doc_score * (weights.docs as u64) <= 100_000u64 * 4_294_967_295u64)
            by (nonlinear_arith)
            requires
                doc_score <= 100_000u64,
                weights.docs as u64 <= 4_294_967_295u64,
        ;
        assert(security_score * (weights.security as u64) <= 100_000u64 * 4_294_967_295u64)
            by (nonlinear_arith)
            requires
                security_score <= 100_000u64,
                weights.security as u64 <= 4_294_967_295u64,
        ;
    }
    let weighted: u64 = code_score * (weights.code as u64) + test_score * (weights.tests as u64)
        + doc_score * (weights.docs as u64) + security_score * (weights.security as u64);
    let quotient: u64 = weighted / 1_000_000;
    let overall_score: u64 = if quotient > 100_000 { 100_000 } else { quotient };
    let breakdown = QualityScoreBreakdown {
        code_score,
        test_score,
        doc_score,
        security_score,
        overall_score,
    };
    let badge = QualityBadge::from_score(overall_score);
    Ok((breakdown, badge))
}

/// Law: for a valid weight set and dimension scores within `[0, 100]`
/// points, the overall score equals the exact weighted sum of the four
/// dimension scores (flooring division by one million parts per million),
/// clamped to `[0, 100]` points, and itself lies in that range.
pub proof fn lemma_overall_is_clamped_weighted_sum(
    c: u64,
    t: u64,
    d: u64,
    s: u64,
    w: QualityWeights,
)
    requires
        weights_valid(w),
        c <= 100_000,
        t <= 100_000,
        d <= 100_000,
        s <= 100_000,
    ensures
        overall_of(c as int, t as int, d as int, s as int, w) == clamp_score(
            (c * w.code + t * w.tests + d * w.docs + s * w.security) / 1_000_000,
        ),
        0 <= overall_of(c as int, t as int, d as int, s as int, w) <= 100_000,
{
}

/// Law: the code score is monotone in its expected direction — higher
/// average cyclomatic complexity never raises it.
pub proof fn lemma_code_score_antitone_in_complexity(a: CodeMetrics, b: CodeMetrics)
    requires
        b == (CodeMetrics { cyclomatic_complexity: b.cyclomatic_complexity, ..a }),
        a.cyclomatic_complexity <= b.cyclomatic_complexity,
    ensures
        code_score_of(b) <= code_score_of(a),
{
}

/// Law: the test score is monotone in its expected direction — higher line
/// coverage never lowers it.
pub proof fn lemma_test_score_monotone_in_line_coverage(a: TestMetrics, b: TestMetrics)
    requires
        b == (TestMetrics { line_coverage: b.line_coverage, ..a }),
        a.line_coverage <= b.line_coverage,
    ensures
        test_score_of(a) <= test_score_of(b),
{
    vstd::arithmetic::mul::lemma_mul_inequality(
        a.line_coverage as int,
        b.line_coverage as int,
        40_000,
    );
    vstd::arithmetic::div_mod::lemma_div_is_ordered(
        a.line_coverage * 40_000 + a.branch_coverage * 30_000 + a.function_coverage * 10_000,
        b.line_coverage * 40_000 + b.branch_coverage * 30_000 + b.function_coverage * 10_000,
        1_000_000,
    );
}

/// Law: the security score is monotone in its expected direction — more
/// critical findings never raise it.
pub proof fn lemma_security_score_antitone_in_critical_findings(
    a: SecurityMetrics,
    b: SecurityMetrics,
)
    requires
        b == (SecurityMetrics { critical_findings: b.critical_findings, ..a }),
        a.critical_findings <= b.critical_findings,
    ensures
        security_score_of(b) <= security_score_of(a),
{
}

/// Law: the overall score is monotone in every dimension score.
pub proof fn lemma_overall_monotone_in_dimensions(
    c1: u64,
    c2: u64,
    t: u64,
    d: u64,
    s: u64,
    w: QualityWeights,
)
    requires
        c1 <= c2,
    ensures
        overall_of(c1 as int, t as int, d as int, s as int, w) <= overall_of(
            c2 as int,
            t as int,
            d as int,
            s as int,
            w,
        ),
{
    vstd::arithmetic::mul::lemma_mul_inequality(c1 as int, c2 as int, w.code as int);
    vstd::arithmetic::div_mod::lemma_div_is_ordered(
        c1 * w.code + t * w.tests + d * w.docs + s * w.security,
        c2 * w.code + t * w.tests + d * w.docs + s * w.security,
        1_000_000,
    );
}

/// Law: the score calculation is deterministic — two breakdowns computed
/// from identical metric and weight inputs are bit-identical, because each
/// is the same pure function of those inputs.
pub proof fn lemma_score_recompute_identical(
    first: QualityScoreBreakdown,
    second: QualityScoreBreakdown,
    code: CodeMetrics,
    test: TestMetrics,
    doc: DocMetrics,
    sec: SecurityMetrics,
    w: QualityWeights,
)
    requires
        first == breakdown_of(code, test, doc, sec, w),
        second == breakdown_of(code, test, doc, sec, w),
    ensures
        first == second,
{
}

} // verus!
