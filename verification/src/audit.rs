//! Security-audit data model: the static checklist vocabulary and the
//! per-audit runtime records.
//!
//! The audit checklist content and its detection logic live outside this
//! engine; the scoring side only consumes the counts and scores that an
//! audit produced. Severity carries an explicit numeric rank so that the
//! ordering `Info < Low < Medium < High < Critical` is a total order usable
//! in comparisons, never a string comparison.

use vstd::prelude::*;

verus! {

broadcast use vstd::string::group_string_axioms;

/// Category of a security checklist item.
#[derive(Debug, Clone, Copy, PartialEq, Eq, Hash, Structural)]
pub enum CheckCategory {
    InputValidation,
    StateManagement,
    AccessControl,
    Reentrancy,
    NumericalSafety,
    AuthenticationAuthorization,
    DataSerialization,
    ErrorHandling,
    StoragePatterns,
    TokenSafety,
    EventLogging,
    Upgradeability,
    CrossContractCalls,
    ResourceLimits,
}

impl CheckCategory {
    /// Human-readable name of the category.
    pub fn display_name(&self) -> (r: String)
        ensures
            r@ == match *self {
                CheckCategory::InputValidation => "Input Validation"@,
                CheckCategory::StateManagement => "State Management"@,
                CheckCategory::AccessControl => "Access Control"@,
                CheckCategory::Reentrancy => "Reentrancy"@,
                CheckCategory::NumericalSafety => "Numerical Safety"@,
                CheckCategory::AuthenticationAuthorization => "Authentication & Authorization"@,
                CheckCategory::DataSerialization => "Data Serialization"@,
                CheckCategory::ErrorHandling => "Error Handling"@,
                CheckCategory::StoragePatterns => "Storage Patterns"@,
                CheckCategory::TokenSafety => "Token Safety"@,
                CheckCategory::EventLogging => "Event Logging"@,
                CheckCategory::Upgradeability => "Upgradeability"@,
                CheckCategory::CrossContractCalls => "Cross-Contract Calls"@,
                CheckCategory::ResourceLimits => "Resource Limits"@,
            },
    {
        match self {
            CheckCategory::InputValidation => "Input Validation".to_string(),
            CheckCategory::StateManagement => "State Management".to_string(),
            CheckCategory::AccessControl => "Access Control".to_string(),
            CheckCategory::Reentrancy => "Reentrancy".to_string(),
            CheckCategory::NumericalSafety => "Numerical Safety".to_string(),
            CheckCategory::AuthenticationAuthorization => {
                "Authentication & Authorization".to_string()
            },
            CheckCategory::DataSerialization => "Data Serialization".to_string(),
            CheckCategory::ErrorHandling => "Error Handling".to_string(),
            CheckCategory::StoragePatterns => "Storage Patterns".to_string(),
            CheckCategory::TokenSafety => "Token Safety".to_string(),
            CheckCategory::EventLogging => "Event Logging".to_string(),
            CheckCategory::Upgradeability => "Upgradeability".to_string(),
            CheckCategory::CrossContractCalls => "Cross-Contract Calls".to_string(),
            CheckCategory::ResourceLimits => "Resource Limits".to_string(),
        }
    }
}

/// Severity of a security finding, ordered `Info < Low < ... < Critical`.
#[derive(Debug, Clone, Copy, PartialEq, Eq, PartialOrd, Ord, Structural)]
pub enum Severity {
    Info,
    Low,
    Medium,
    High,
    Critical,
}

/// The explicit numeric rank of a severity.
pub open spec fn severity_rank(s: Severity) -> int {
    match s {
        Severity::Info => 0,
        Severity::Low => 1,
        Severity::Medium => 2,
        Severity::High => 3,
        Severity::Critical => 4,
    }
}

impl Severity {
    /// Numeric rank usable for comparisons and sorting.
    pub fn rank(&self) -> (r: u8)
        ensures
            r == severity_rank(*self),
    {
        match self {
            Severity::Info => 0,
            Severity::Low => 1,
            Severity::Medium => 2,
            Severity::High => 3,
            Severity::Critical => 4,
        }
    }

    /// Human-readable name of the severity.
    pub fn label(&self) -> (r: String)
        ensures
            r@ == match *self {
                Severity::Info => "Info"@,
                Severity::Low => "Low"@,
                Severity::Medium => "Medium"@,
                Severity::High => "High"@,
                Severity::Critical => "Critical"@,
            },
    {
        match self {
            Severity::Info => "Info".to_string(),
            Severity::Low => "Low".to_string(),
            Severity::Medium => "Medium".to_string(),
            Severity::High => "High".to_string(),
            Severity::Critical => "Critical".to_string(),
        }
    }
}

/// Law: the severity rank is a strict total order — two severities are
/// equal exactly when their ranks are.
pub proof fn lemma_severity_rank_total_order(a: Severity, b: Severity)
    ensures
        a == b <==> severity_rank(a) == severity_rank(b),
        0 <= severity_rank(a) <= 4,
{
}

/// How a checklist item can be detected: a closed set of methods, handled
/// exhaustively wherever checklist items are processed.
#[derive(Debug, Clone, PartialEq)]
pub enum DetectionMethod {
    /// Detected purely by pattern-matching source code.
    Automatic { patterns: Vec<String> },
    /// Must be reviewed by a human auditor.
    Manual,
    /// Partially automatable: patterns hint, a human confirms.
    SemiAutomatic { patterns: Vec<String> },
}

impl DetectionMethod {
    /// The tag under which this method is reported.
    pub fn kind_label(&self) -> (r: String)
        ensures
            r@ == match *self {
                DetectionMethod::Automatic { .. } => "automatic"@,
                DetectionMethod::Manual => "manual"@,
                DetectionMethod::SemiAutomatic { .. } => "semi_automatic"@,
            },
    {
        match self {
            DetectionMethod::Automatic { .. } => "automatic".to_string(),
            DetectionMethod::Manual => "manual".to_string(),
            DetectionMethod::SemiAutomatic { .. } => "semi_automatic".to_string(),
        }
    }

    /// Whether any pattern matching is involved at all.
    pub fn has_patterns(&self) -> (r: bool)
        ensures
            r == !(*self is Manual),
    {
        match self {
            DetectionMethod::Automatic { .. } => true,
            DetectionMethod::Manual => false,
            DetectionMethod::SemiAutomatic { .. } => true,
        }
    }
}

/// One item in the security audit checklist (static data).
#[derive(Debug, Clone, PartialEq)]
pub struct ChecklistItem {
    pub id: String,
    pub category: CheckCategory,
    pub title: String,
    pub description: String,
    pub severity: Severity,
    pub detection: DetectionMethod,
    pub remediation: String,
    pub references: Vec<String>,
}

/// Status of a single checklist item within an audit.
#[derive(Debug, Clone, Copy, PartialEq, Eq, Structural, Default)]
pub enum CheckStatus {
    Passed,
    Failed,
    NotApplicable,
    #[default]
    Pending,
}

/// Per-check status within a single audit.
#[derive(Debug, Clone, PartialEq)]
pub struct AuditCheckRow {
    pub id: u128,
    pub audit_id: u128,
    pub check_id: String,
    pub status: CheckStatus,
    pub notes: Option<String>,
    pub auto_detected: bool,
    pub evidence: Option<String>,
    /// Unix epoch milliseconds.
    pub updated_at: i64,
}

/// A complete audit session for a contract. The overall score is in
/// millipoints (`0..=100_000`).
#[derive(Debug, Clone, PartialEq)]
pub struct AuditRecord {
    pub id: u128,
    pub contract_id: u128,
    pub contract_source: Option<String>,
    pub auditor: String,
    /// Unix epoch milliseconds.
    pub audit_date: i64,
    pub overall_score: u64,
    pub summary: Option<String>,
    /// Unix epoch milliseconds.
    pub created_at: i64,
    /// Unix epoch milliseconds.
    pub updated_at: i64,
}

/// Request to open an audit session.
#[derive(Debug, Clone, PartialEq)]
pub struct CreateAuditRequest {
    pub auditor: String,
    pub source_code: Option<String>,
}

/// Request to update one check's status within an audit.
#[derive(Debug, Clone, PartialEq)]
pub struct UpdateCheckRequest {
    pub status: CheckStatus,
    pub notes: Option<String>,
}

/// A checklist item merged with its current audit status.
#[derive(Debug, Clone, PartialEq)]
pub struct CheckWithStatus {
    pub id: String,
    pub category: String,
    pub title: String,
    pub description: String,
    pub severity: String,
    pub detection_type: String,
    pub auto_patterns: Vec<String>,
    pub remediation: String,
    pub references: Vec<String>,
    pub status: CheckStatus,
    pub notes: Option<String>,
    pub auto_detected: bool,
    pub evidence: Option<String>,
}

/// Per-category breakdown of an audit score (score in millipoints).
#[derive(Debug, Clone, PartialEq)]
pub struct CategoryScore {
    pub category: String,
    pub score: u64,
    pub passed: usize,
    pub total: usize,
    pub failed_critical: usize,
    pub failed_high: usize,
}

/// Full audit response: the record, per-check statuses, and category scores.
#[derive(Debug, Clone, PartialEq)]
pub struct AuditResponse {
    pub audit: AuditRecord,
    pub checks: Vec<CheckWithStatus>,
    pub category_scores: Vec<CategoryScore>,
    pub auto_detected_count: usize,
}

/// Lightweight score summary for contract card display (score in
/// millipoints).
#[derive(Debug, Clone, PartialEq)]
pub struct ContractSecuritySummary {
    pub audit_id: u128,
    /// Unix epoch milliseconds.
    pub audit_date: i64,
    pub auditor: String,
    pub overall_score: u64,
    pub score_badge: String,
}

/// Query parameters for the Markdown export of an audit.
#[derive(Debug, Clone, Copy, PartialEq, Eq, Structural)]
pub struct ExportRequest {
    pub include_descriptions: bool,
    pub failures_only: bool,
}

/// Default for boolean query fields that are on unless given.
pub fn default_true() -> (r: bool)
    ensures
        r,
{
    true
}

} // verus!
