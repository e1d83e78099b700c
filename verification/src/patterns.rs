//! Patterns page labels: how repetitive a function's code is by its entropy.
use vstd::prelude::*;

verus! {

/// Description of an entropy score (in thousandths: 0.3 is `300`).
pub open spec fn entropy_level(score: nat) -> Seq<char> {
    if score < 300 {
        "low (repetitive)"@
    } else if score < 500 {
        "medium (typical)"@
    } else {
        "high (chaotic)"@
    }
}

/// Describe entropy level based on score.
pub fn entropy_description(score: u32) -> (r: &'static str)
    ensures
        r@ == entropy_level(score as nat),
{
    if score < 300 {
        "low (repetitive)"
    } else if score < 500 {
        "medium (typical)"
    } else {
        "high (chaotic)"
    }
}

} // verus!
