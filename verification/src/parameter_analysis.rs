//! Maintainability impact of parameter lists and data clumps.
use vstd::prelude::*;

verus! {

/// How much a finding weighs on maintainability.
#[derive(Debug, Clone, Copy, PartialEq, Eq, Structural)]
pub enum MaintainabilityImpact {
    Low,
    Medium,
}

/// Classifies parameter lists and recurring parameter groups.
pub struct ParameterAnalyzer;

impl ParameterAnalyzer {
    /// Impact of a parameter list of `n` parameters: low.
    pub fn classify_parameter_list_impact(n: usize) -> (r: MaintainabilityImpact)
        ensures
            r == MaintainabilityImpact::Low,
    {
        MaintainabilityImpact::Low
    }

    /// Impact of a group of parameters that recurs `occurrences` times:
    /// medium for more than five, low otherwise.
    pub fn classify_data_clump_impact(occurrences: usize) -> (r: MaintainabilityImpact)
        ensures
            r == (if occurrences > 5 { MaintainabilityImpact::Medium } else { MaintainabilityImpact::Low }),
    {
        if occurrences > 5 {
            MaintainabilityImpact::Medium
        } else {
            MaintainabilityImpact::Low
        }
    }
}

} // verus!
