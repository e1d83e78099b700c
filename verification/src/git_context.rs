//! Git context page labels: how stable a file is by its change frequency.
use vstd::prelude::*;

verus! {

/// Stability of a file changed `change_frequency` times a month (in
/// hundredths: 1.0 is `100`).
pub open spec fn stability_class(change_frequency: nat) -> Seq<char> {
    if change_frequency < 100 {
        "Stable"@
    } else if change_frequency < 500 {
        "Moderately Unstable"@
    } else {
        "Highly Unstable"@
    }
}

/// Classify stability based on change frequency.
pub fn classify_stability(change_frequency: u32) -> (r: &'static str)
    ensures
        r@ == stability_class(change_frequency as nat),
{
    if change_frequency < 100 {
        "Stable"
    } else if change_frequency < 500 {
        "Moderately Unstable"
    } else {
        "Highly Unstable"
    }
}

} // verus!
