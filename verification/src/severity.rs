//! Severity of detected anomalies, and its order.

use std::cmp::Ordering;
use vstd::prelude::*;

verus! {

/// Severity of a detected anomaly, from the least to the most severe.
#[derive(Clone, Copy, Debug, PartialEq, Eq, Ord, Structural)]
pub enum SeverityLevel {
    /// Informational, no action required.
    Info,
    /// Low severity, schedule maintenance.
    Low,
    /// Medium severity, prioritize inspection.
    Medium,
    /// High severity, immediate attention needed.
    High,
    /// Critical, emergency response required.
    Critical,
}

impl SeverityLevel {
    /// The place of the level in the order of severity, from 0 for the least
    /// severe.
    pub open spec fn rank(self) -> int {
        match self {
            SeverityLevel::Info => 0,
            SeverityLevel::Low => 1,
            SeverityLevel::Medium => 2,
            SeverityLevel::High => 3,
            SeverityLevel::Critical => 4,
        }
    }

    fn place(&self) -> (r: u8)
        ensures
            r == self.rank(),
    {
        match self {
            SeverityLevel::Info => 0,
            SeverityLevel::Low => 1,
            SeverityLevel::Medium => 2,
            SeverityLevel::High => 3,
            SeverityLevel::Critical => 4,
        }
    }
}

impl PartialOrd for SeverityLevel {
    fn partial_cmp(&self, other: &SeverityLevel) -> (r: Option<Ordering>) {
        let mine: u8 = self.place();
        let theirs: u8 = other.place();
        if mine < theirs {
            Some(Ordering::Less)
        } else if mine > theirs {
            Some(Ordering::Greater)
        } else {
            Some(Ordering::Equal)
        }
    }
}

impl vstd::std_specs::cmp::PartialOrdSpecImpl for SeverityLevel {
    open spec fn obeys_partial_cmp_spec() -> bool {
        true
    }

    /// Levels compare as their ranks do.
    open spec fn partial_cmp_spec(&self, other: &SeverityLevel) -> Option<Ordering> {
        if self.rank() < other.rank() {
            Some(Ordering::Less)
        } else if self.rank() > other.rank() {
            Some(Ordering::Greater)
        } else {
            Some(Ordering::Equal)
        }
    }
}

} // verus!
