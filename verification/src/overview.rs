//! Overview page helpers: debt type names, the cognitive complexity display,
//! and the items that share the selected item's location.
use vstd::prelude::*;
use crate::grouping::values;
use crate::item::{DebtType, EntropyDetails, UnifiedDebtItem, locations_equal, same_location};
use crate::results_app::ResultsApp;
use crate::text::{decimal, push_decimal, push_str};

verus! {

/// Human-readable name of a debt type.
pub open spec fn debt_type_name(t: DebtType) -> Seq<char> {
    match t {
        DebtType::ComplexityHotspot { .. } => "High Complexity"@,
        DebtType::TestingGap { .. } => "Testing Gap"@,
        DebtType::DeadCode => "Dead Code"@,
        DebtType::Duplication => "Duplication"@,
        DebtType::Risk => "Risk"@,
        DebtType::TestComplexityHotspot => "Test Complexity"@,
        DebtType::TestTodo => "Test TODO"@,
        DebtType::TestDuplication => "Test Duplication"@,
        DebtType::ErrorSwallowing => "Error Swallowing"@,
        DebtType::AllocationInefficiency => "Allocation Inefficiency"@,
        DebtType::StringConcatenation => "String Concatenation"@,
        DebtType::NestedLoops => "Nested Loops"@,
        DebtType::BlockingIO => "Blocking I/O"@,
        DebtType::SuboptimalDataStructure => "Suboptimal Data Structure"@,
        DebtType::GodObject { .. } => "God Object"@,
        DebtType::FeatureEnvy => "Feature Envy"@,
        DebtType::PrimitiveObsession => "Primitive Obsession"@,
        DebtType::MagicValues => "Magic Values"@,
        DebtType::AssertionComplexity => "Assertion Complexity"@,
        DebtType::FlakyTestPattern => "Flaky Test Pattern"@,
        DebtType::AsyncMisuse => "Async Misuse"@,
        DebtType::ResourceLeak => "Resource Leak"@,
        DebtType::CollectionInefficiency => "Collection Inefficiency"@,
        DebtType::ScatteredType => "Scattered Type"@,
        DebtType::OrphanedFunctions => "Orphaned Functions"@,
        DebtType::UtilitiesSprawl => "Utilities Sprawl"@,
        DebtType::Complexity { .. } => "Other"@,
    }
}

/// A string holding `s`.
fn owned(s: &str) -> (r: String)
    ensures
        r@ == s@,
{
    let mut r = String::new();
    push_str(&mut r, s);
    r
}

/// Format debt type as human-readable name.
pub fn format_debt_type_name(debt_type: &DebtType) -> (r: String)
    ensures
        r@ == debt_type_name(*debt_type),
{
    let name = match debt_type {
        DebtType::ComplexityHotspot { .. } => "High Complexity",
        DebtType::TestingGap { .. } => "Testing Gap",
        DebtType::DeadCode => "Dead Code",
        DebtType::Duplication => "Duplication",
        DebtType::Risk => "Risk",
        DebtType::TestComplexityHotspot => "Test Complexity",
        DebtType::TestTodo => "Test TODO",
        DebtType::TestDuplication => "Test Duplication",
        DebtType::ErrorSwallowing => "Error Swallowing",
        DebtType::AllocationInefficiency => "Allocation Inefficiency",
        DebtType::StringConcatenation => "String Concatenation",
        DebtType::NestedLoops => "Nested Loops",
        DebtType::BlockingIO => "Blocking I/O",
        DebtType::SuboptimalDataStructure => "Suboptimal Data Structure",
        DebtType::GodObject { .. } => "God Object",
        DebtType::FeatureEnvy => "Feature Envy",
        DebtType::PrimitiveObsession => "Primitive Obsession",
        DebtType::MagicValues => "Magic Values",
        DebtType::AssertionComplexity => "Assertion Complexity",
        DebtType::FlakyTestPattern => "Flaky Test Pattern",
        DebtType::AsyncMisuse => "Async Misuse",
        DebtType::ResourceLeak => "Resource Leak",
        DebtType::CollectionInefficiency => "Collection Inefficiency",
        DebtType::ScatteredType => "Scattered Type",
        DebtType::OrphanedFunctions => "Orphaned Functions",
        DebtType::UtilitiesSprawl => "Utilities Sprawl",
        DebtType::Complexity { .. } => "Other",
    };
    owned(name)
}

/// The entropy details that apply to the cognitive display: the aggregated
/// ones of a god object, the item's own otherwise.
pub open spec fn applicable_entropy(item: UnifiedDebtItem, is_god_object: bool) -> Option<EntropyDetails> {
    if is_god_object {
        match item.god_object_indicators {
            Some(g) => g.aggregated_entropy,
            None => None,
        }
    } else {
        item.entropy_details
    }
}

/// Cognitive complexity text: "original → adjusted (dampened)" when entropy
/// dampening applies (factor below one), the plain cognitive complexity
/// otherwise.
pub open spec fn cognitive_display(item: UnifiedDebtItem, is_god_object: bool) -> Seq<char> {
    match applicable_entropy(item, is_god_object) {
        Some(e) => if e.dampening_factor < 1000 {
            decimal(e.original_complexity as nat) + " → "@ + decimal(e.adjusted_cognitive as nat) + " (dampened)"@
        } else {
            decimal(item.cognitive_complexity as nat)
        },
        None => decimal(item.cognitive_complexity as nat),
    }
}

/// Format cognitive complexity display with optional dampening info.
pub fn format_cognitive_display(item: &UnifiedDebtItem, is_god_object: bool) -> (r: String)
    ensures
        r@ == cognitive_display(*item, is_god_object),
{
    let entropy: Option<&EntropyDetails> = if is_god_object {
        match &item.god_object_indicators {
            Some(g) => g.aggregated_entropy.as_ref(),
            None => None,
        }
    } else {
        item.entropy_details.as_ref()
    };
    let mut out = String::new();
    match entropy {
        Some(e) => {
            if e.dampening_factor < 1000 {
                push_decimal(&mut out, e.original_complexity as u128);
                push_str(&mut out, " → ");
                push_decimal(&mut out, e.adjusted_cognitive as u128);
                push_str(&mut out, " (dampened)");
            } else {
                push_decimal(&mut out, item.cognitive_complexity as u128);
            }
        },
        None => {
            push_decimal(&mut out, item.cognitive_complexity as u128);
        },
    }
    assert(out@ =~= cognitive_display(*item, is_god_object));
    out
}

/// The items among `items` at the location of `selected`, in order.
pub open spec fn items_at(items: Seq<UnifiedDebtItem>, selected: UnifiedDebtItem) -> Seq<UnifiedDebtItem>
    decreases items.len(),
{
    if items.len() == 0 {
        Seq::empty()
    } else {
        let prev = items_at(items.drop_last(), selected);
        if same_location(items.last().location, selected.location) {
            prev.push(items.last())
        } else {
            prev
        }
    }
}

/// Get all debt items of the analysis at the same location as the selected item.
pub fn get_items_at_location<'a>(app: &'a ResultsApp, selected: &UnifiedDebtItem) -> (r: Vec<&'a UnifiedDebtItem>)
    ensures
        values(r@) == items_at(app.analysis_data().items@, *selected),
{
    let items = &app.analysis().items;
    let mut r: Vec<&'a UnifiedDebtItem> = Vec::new();
    let mut i: usize = 0;
    while i < items.len()
        invariant
            i <= items@.len(),
            *items == app.analysis_data().items,
            values(r@) == items_at(items@.take(i as int), *selected),
        decreases items@.len() - i,
    {
        proof {
            assert(items@.take(i + 1).drop_last() =~= items@.take(i as int));
        }
        let item = &items[i];
        if locations_equal(&item.location, &selected.location) {
            r.push(item);
            proof {
                assert(values(r@) =~= values(r@.drop_last()).push(*item));
            }
        }
        i = i + 1;
    }
    proof {
        assert(items@.take(items@.len() as int) =~= items@);
    }
    r
}

} // verus!
