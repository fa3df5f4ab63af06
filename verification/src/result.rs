//! Findings that rules report.

use vstd::prelude::*;
use crate::rule::Level;

verus! {

/// A severity-tagged finding produced by a rule whose check failed.
#[derive(Clone, Debug)]
pub struct Violation {
    /// How severe the finding is.
    pub level: Level,
    /// A human-readable description of why the rule fired.
    pub message: String,
}

} // verus!
