//! Discrete quality badge derived from an overall score.
//!
//! The badge is an ordered, exhaustive discretization of the overall score
//! into five tiers with non-overlapping bands, closed at the bottom and open
//! at the top (except the topmost, which includes 100):
//! Critical `[0, 25)`, Poor `[25, 50)`, Fair `[50, 75)`, Good `[75, 90)`,
//! Excellent `[90, 100]` — all in points; scores here are in millipoints.

use vstd::prelude::*;

verus! {

broadcast use vstd::string::group_string_axioms;

/// Quality badge derived from an overall score.
#[derive(Debug, Clone, Copy, PartialEq, Eq, Structural)]
pub enum QualityBadge {
    Excellent,
    Good,
    Fair,
    Poor,
    Critical,
}

/// The badge that a given overall score (in millipoints) falls in.
pub open spec fn badge_of(score_milli: u64) -> QualityBadge {
    if score_milli < 25_000 {
        QualityBadge::Critical
    } else if score_milli < 50_000 {
        QualityBadge::Poor
    } else if score_milli < 75_000 {
        QualityBadge::Fair
    } else if score_milli < 90_000 {
        QualityBadge::Good
    } else {
        QualityBadge::Excellent
    }
}

/// Human-readable name of each tier.
pub open spec fn badge_label_of(b: QualityBadge) -> Seq<char> {
    match b {
        QualityBadge::Excellent => "Excellent"@,
        QualityBadge::Good => "Good"@,
        QualityBadge::Fair => "Fair"@,
        QualityBadge::Poor => "Poor"@,
        QualityBadge::Critical => "Critical"@,
    }
}

impl QualityBadge {
    /// Classify an overall score (millipoints) into its badge tier.
    ///
    /// Scores above 100 points are a contract violation of the caller: the
    /// score calculator clamps every score it produces to `[0, 100]` points.
    pub fn from_score(score_milli: u64) -> (r: QualityBadge)
        requires
            score_milli <= 100_000,
        ensures
            r == badge_of(score_milli),
    {
        if score_milli < 25_000 {
            QualityBadge::Critical
        } else if score_milli < 50_000 {
            QualityBadge::Poor
        } else if score_milli < 75_000 {
            QualityBadge::Fair
        } else if score_milli < 90_000 {
            QualityBadge::Good
        } else {
            QualityBadge::Excellent
        }
    }

    /// Human-readable name of the tier.
    pub fn label(&self) -> (r: String)
        ensures
            r@ == badge_label_of(*self),
    {
        match self {
            QualityBadge::Excellent => "Excellent".to_string(),
            QualityBadge::Good => "Good".to_string(),
            QualityBadge::Fair => "Fair".to_string(),
            QualityBadge::Poor => "Poor".to_string(),
            QualityBadge::Critical => "Critical".to_string(),
        }
    }
}

} // verus!
