//! Dependencies page labels: the coupling classification of a file.
use vstd::prelude::*;
use crate::text::push_str;

verus! {

/// Coupling class of a file from its afferent and efferent coupling and its
/// instability (in hundredths: 0.3 is `30`).
pub open spec fn coupling_class(afferent: nat, efferent: nat, instability: nat) -> Seq<char> {
    let total = afferent + efferent;
    if total > 15 {
        "Highly Coupled"@
    } else if total <= 2 {
        "Isolated"@
    } else if instability < 30 && afferent > efferent {
        "Stable Core"@
    } else if instability > 70 && efferent > afferent {
        "Leaf Module"@
    } else {
        "Utility Module"@
    }
}

/// Derive the coupling classification of a file from its metrics.
pub fn derive_coupling_classification(afferent: usize, efferent: usize, instability: u32) -> (r: String)
    ensures
        r@ == coupling_class(afferent as nat, efferent as nat, instability as nat),
{
    let total = afferent as u128 + efferent as u128;
    let label = if total > 15 {
        "Highly Coupled"
    } else if total <= 2 {
        "Isolated"
    } else if instability < 30 && afferent > efferent {
        "Stable Core"
    } else if instability > 70 && efferent > afferent {
        "Leaf Module"
    } else {
        "Utility Module"
    };
    let mut r = String::new();
    push_str(&mut r, label);
    r
}

} // verus!
