//! Sorting of item indices by the user's sort criteria.
use vstd::prelude::*;
use crate::item::UnifiedDebtItem;
use crate::ordering::{
    SortKey, KeyView, is_stable_sorted, key_le, lemma_key_le_first, lemma_stable_order_exists, pair_lt, permute, seq_lt,
    sorted_by_keys,
    stable_order, stable_sort_positions,
};
use crate::text::{path_ranks, text_ranks, path_rank_vec, text_rank_vec};

verus! {

/// Sort criteria.
#[derive(Debug, Clone, Copy, PartialEq, Eq, Structural)]
pub enum SortCriteria {
    /// Sort by total score (default, descending).
    Score,
    /// Sort by coverage (ascending - worst coverage first).
    Coverage,
    /// Sort by complexity (descending - highest complexity first).
    Complexity,
    /// Sort by file path (alphabetical).
    FilePath,
    /// Sort by function name (alphabetical).
    FunctionName,
}

/// Display name of a sort criterion.
pub open spec fn criteria_name(c: SortCriteria) -> Seq<char> {
    match c {
        SortCriteria::Score => "score"@,
        SortCriteria::Coverage => "coverage"@,
        SortCriteria::Complexity => "complexity"@,
        SortCriteria::FilePath => "file path"@,
        SortCriteria::FunctionName => "function name"@,
    }
}

/// The tiebreaker for an index into `items`: a missing item comes first, then
/// items by file path (component-wise) and line.
pub open spec fn tiebreak(items: Seq<UnifiedDebtItem>, idx: int) -> (int, Seq<u32>, int) {
    if 0 <= idx < items.len() {
        (1, path_ranks(items[idx].location.file@), items[idx].location.line as int)
    } else {
        (0, Seq::empty(), 0)
    }
}

/// The sort key of an index into `items` under a criterion.
///
/// - Score: higher score first (a missing item counts as score 0), then the tiebreaker.
/// - Coverage: no coverage first, then lower coverage first, then the tiebreaker.
/// - Complexity: higher cyclomatic complexity first, missing items last, then the tiebreaker.
/// - FilePath: missing items first, then by file path, then by line.
/// - FunctionName: missing items first, then by function name, then the tiebreaker.
pub open spec fn index_key(items: Seq<UnifiedDebtItem>, idx: int, criteria: SortCriteria) -> KeyView {
    let present = 0 <= idx < items.len();
    let item = items[idx];
    let t = tiebreak(items, idx);
    match criteria {
        SortCriteria::Score => (
            if present { -(item.final_score as int) } else { 0 },
            Seq::empty(),
            t.0,
            t.1,
            t.2,
        ),
        SortCriteria::Coverage => (
            if present && item.coverage is Some { item.coverage.unwrap() + 1 } else { 0 },
            Seq::empty(),
            t.0,
            t.1,
            t.2,
        ),
        SortCriteria::Complexity => (
            if present { -(item.cyclomatic_complexity + 1) } else { 0 },
            Seq::empty(),
            t.0,
            t.1,
            t.2,
        ),
        SortCriteria::FilePath => (
            t.0,
            t.1,
            if present { item.location.line + 1 } else { 0 },
            Seq::empty(),
            0,
        ),
        SortCriteria::FunctionName => (
            t.0,
            if present { text_ranks(item.location.function@) } else { Seq::empty() },
            t.0,
            t.1,
            t.2,
        ),
    }
}

/// The keys of a sequence of indices.
pub open spec fn index_keys(items: Seq<UnifiedDebtItem>, indices: Seq<usize>, criteria: SortCriteria) -> Seq<KeyView> {
    indices.map_values(|i: usize| index_key(items, i as int, criteria))
}

/// `indices` stably sorted under `criteria`.
pub open spec fn sorted_indices(items: Seq<UnifiedDebtItem>, indices: Seq<usize>, criteria: SortCriteria) -> Seq<usize> {
    sorted_by_keys(indices, index_keys(items, indices, criteria))
}

impl SortCriteria {
    /// Get display name (minimal lowercase style).
    pub fn display_name(&self) -> (r: &'static str)
        ensures
            r@ == criteria_name(*self),
    {
        proof {
            reveal_strlit("score");
            reveal_strlit("coverage");
            reveal_strlit("complexity");
            reveal_strlit("file path");
            reveal_strlit("function name");
        }
        match self {
            SortCriteria::Score => "score",
            SortCriteria::Coverage => "coverage",
            SortCriteria::Complexity => "complexity",
            SortCriteria::FilePath => "file path",
            SortCriteria::FunctionName => "function name",
        }
    }

    /// Get all sort criteria.
    pub fn all() -> (r: Vec<SortCriteria>)
        ensures
            r@ == seq![
                SortCriteria::Score,
                SortCriteria::Coverage,
                SortCriteria::Complexity,
                SortCriteria::FilePath,
                SortCriteria::FunctionName,
            ],
    {
        let mut v = Vec::new();
        v.push(SortCriteria::Score);
        v.push(SortCriteria::Coverage);
        v.push(SortCriteria::Complexity);
        v.push(SortCriteria::FilePath);
        v.push(SortCriteria::FunctionName);
        assert(v@ =~= seq![
            SortCriteria::Score,
            SortCriteria::Coverage,
            SortCriteria::Complexity,
            SortCriteria::FilePath,
            SortCriteria::FunctionName,
        ]);
        v
    }
}

/// Sort key of one index.
pub fn index_sort_key(items: &Vec<UnifiedDebtItem>, idx: usize, criteria: SortCriteria) -> (k: SortKey)
    ensures
        k@ == index_key(items@, idx as int, criteria),
{
    let present = idx < items.len();
    let (t0, t1, t2): (i128, Vec<u32>, i128) = if present {
        (1, path_rank_vec(items[idx].location.file.as_str()), items[idx].location.line as i128)
    } else {
        (0, Vec::new(), 0)
    };
    assert((t0 as int, t1@, t2 as int) == tiebreak(items@, idx as int));
    match criteria {
        SortCriteria::Score => {
            let a: i128 = if present { -(items[idx].final_score as i128) } else { 0 };
            SortKey { a, b: Vec::new(), c: t0, d: t1, e: t2 }
        },
        SortCriteria::Coverage => {
            let a: i128 = if present {
                match items[idx].coverage {
                    Some(c) => c as i128 + 1,
                    None => 0,
                }
            } else {
                0
            };
            SortKey { a, b: Vec::new(), c: t0, d: t1, e: t2 }
        },
        SortCriteria::Complexity => {
            let a: i128 = if present { -(items[idx].cyclomatic_complexity as i128 + 1) } else { 0 };
            SortKey { a, b: Vec::new(), c: t0, d: t1, e: t2 }
        },
        SortCriteria::FilePath => {
            let c: i128 = if present { items[idx].location.line as i128 + 1 } else { 0 };
            SortKey { a: t0, b: t1, c, d: Vec::new(), e: 0 }
        },
        SortCriteria::FunctionName => {
            let b: Vec<u32> = if present {
                text_rank_vec(items[idx].location.function.as_str())
            } else {
                Vec::new()
            };
            SortKey { a: t0, b, c: t0, d: t1, e: t2 }
        },
    }
}

/// Rearranges `s` by the positions listed in `perm`.
pub fn apply_permutation(s: &Vec<usize>, perm: &Vec<usize>) -> (r: Vec<usize>)
    requires
        forall|m: int| 0 <= m < perm.len() ==> #[trigger] perm@[m] < s.len(),
    ensures
        r@ == permute(s@, perm@.map_values(|p: usize| p as int)),
{
    let mut r: Vec<usize> = Vec::new();
    let mut m: usize = 0;
    while m < perm.len()
        invariant
            m <= perm.len(),
            forall|j: int| 0 <= j < perm.len() ==> #[trigger] perm@[j] < s.len(),
            r.len() == m,
            forall|j: int| 0 <= j < m ==> r@[j] == s@[perm@[j] as int],
        decreases perm.len() - m,
    {
        r.push(s[perm[m]]);
        m = m + 1;
    }
    assert(r@ =~= permute(s@, perm@.map_values(|p: usize| p as int)));
    r
}

/// Sort item indices based on criteria (stable; ties keep their order).
pub fn sort_indices(indices: &mut Vec<usize>, items: &Vec<UnifiedDebtItem>, criteria: SortCriteria)
    ensures
        final(indices)@ == sorted_indices(items@, old(indices)@, criteria),
{
    let mut keys: Vec<SortKey> = Vec::new();
    let mut m: usize = 0;
    while m < indices.len()
        invariant
            m <= indices.len(),
            keys.len() == m,
            forall|j: int| 0 <= j < m ==> (#[trigger] keys@[j])@ == index_key(items@, indices@[j] as int, criteria),
        decreases indices.len() - m,
    {
        let k = index_sort_key(items, indices[m], criteria);
        keys.push(k);
        m = m + 1;
    }
    proof {
        assert(keys@.map_values(|k: SortKey| k@) =~= index_keys(items@, indices@, criteria));
    }
    let perm = stable_sort_positions(&keys);
    proof {
        let pv = perm@.map_values(|p: usize| p as int);
        assert forall|m: int| 0 <= m < perm.len() implies #[trigger] perm@[m] < indices.len() by {
            assert(pv[m] == perm@[m] as int);
        }
    }
    let sorted = apply_permutation(indices, &perm);
    *indices = sorted;
}

/// Sorting rearranges the given indices by a stable order of their positions
/// (each position taken once), so it keeps exactly the given indices, and
/// orders them by key; equal keys keep their given order.
pub proof fn lemma_sorted_indices_is_stable_sort(items: Seq<UnifiedDebtItem>, indices: Seq<usize>, criteria: SortCriteria)
    ensures
        sorted_indices(items, indices, criteria).len() == indices.len(),
        sorted_indices(items, indices, criteria) == permute(indices, stable_order(index_keys(items, indices, criteria))),
        forall|p: int| 0 <= p < indices.len() ==> sorted_indices(items, indices, criteria).contains(#[trigger] indices[p]),
        forall|m: int|
            0 <= m < indices.len() ==> indices.contains(#[trigger] sorted_indices(items, indices, criteria)[m]),
        forall|i: int, j: int|
            0 <= i < j < indices.len() ==> key_le(
                index_key(items, #[trigger] sorted_indices(items, indices, criteria)[i] as int, criteria),
                index_key(items, #[trigger] sorted_indices(items, indices, criteria)[j] as int, criteria),
            ),
        is_stable_sorted(index_keys(items, indices, criteria), stable_order(index_keys(items, indices, criteria))),
{
    let keys = index_keys(items, indices, criteria);
    lemma_stable_order_exists(keys);
    let perm = stable_order(keys);
    let r = sorted_indices(items, indices, criteria);
    assert(r == permute(indices, perm));
    assert forall|i: int, j: int| 0 <= i < j < indices.len() implies key_le(
        index_key(items, #[trigger] r[i] as int, criteria),
        index_key(items, #[trigger] r[j] as int, criteria),
    ) by {
        assert(pair_lt(keys, perm[i], perm[j]));
        assert(keys[perm[i]] == index_key(items, indices[perm[i]] as int, criteria));
        assert(keys[perm[j]] == index_key(items, indices[perm[j]] as int, criteria));
    }
    assert forall|p: int| 0 <= p < indices.len() implies r.contains(#[trigger] indices[p]) by {
        assert(perm.contains(p));
        let m = choose|m: int| 0 <= m < perm.len() && perm[m] == p;
        assert(r[m] == indices[p]);
    }
    assert forall|m: int| 0 <= m < indices.len() implies indices.contains(#[trigger] r[m]) by {
        assert(0 <= perm[m] < keys.len());
        assert(r[m] == indices[perm[m]]);
    }
}

/// Item `a` comes no later than item `b` by location: by file path (component
/// by component), then by line.
pub open spec fn located_in_order(a: UnifiedDebtItem, b: UnifiedDebtItem) -> bool {
    &&& !seq_lt(path_ranks(b.location.file@), path_ranks(a.location.file@))
    &&& path_ranks(a.location.file@) == path_ranks(b.location.file@) ==> a.location.line <= b.location.line
}

/// Sorting by score puts higher scores first: along the result scores never
/// increase (an index naming no item counts as score 0); equal scores come by
/// location.
pub proof fn lemma_sort_by_score_highest_first(items: Seq<UnifiedDebtItem>, indices: Seq<usize>)
    ensures
        forall|i: int, j: int|
            #![trigger sorted_indices(items, indices, SortCriteria::Score)[i], sorted_indices(items, indices, SortCriteria::Score)[j]]
            0 <= i < j < indices.len() ==> {
                let r = sorted_indices(items, indices, SortCriteria::Score);
                let x = r[i] as int;
                let y = r[j] as int;
                &&& (if x < items.len() { items[x].final_score as int } else { 0 }) >= (if y < items.len() {
                    items[y].final_score as int
                } else {
                    0
                })
                &&& x < items.len() && y < items.len() && items[x].final_score == items[y].final_score
                    ==> located_in_order(items[x], items[y])
            },
{
    lemma_sorted_indices_is_stable_sort(items, indices, SortCriteria::Score);
    let r = sorted_indices(items, indices, SortCriteria::Score);
    assert forall|i: int, j: int| #![trigger r[i], r[j]] 0 <= i < j < indices.len() implies {
        let x = r[i] as int;
        let y = r[j] as int;
        &&& (if x < items.len() { items[x].final_score as int } else { 0 }) >= (if y < items.len() {
            items[y].final_score as int
        } else {
            0
        })
        &&& x < items.len() && y < items.len() && items[x].final_score == items[y].final_score
            ==> located_in_order(items[x], items[y])
    } by {
        lemma_key_le_first(index_key(items, r[i] as int, SortCriteria::Score), index_key(items, r[j] as int, SortCriteria::Score));
    }
}

/// Sorting by coverage puts items without coverage first, then lower
/// coverage before higher; equal coverage comes by location.
pub proof fn lemma_sort_by_coverage_lowest_first(items: Seq<UnifiedDebtItem>, indices: Seq<usize>)
    ensures
        forall|i: int, j: int|
            #![trigger sorted_indices(items, indices, SortCriteria::Coverage)[i], sorted_indices(items, indices, SortCriteria::Coverage)[j]]
            0 <= i < j < indices.len() ==> {
                let r = sorted_indices(items, indices, SortCriteria::Coverage);
                let x = r[i] as int;
                let y = r[j] as int;
                x < items.len() && y < items.len() ==> {
                    &&& items[y].coverage is None ==> items[x].coverage is None
                    &&& items[x].coverage is Some && items[y].coverage is Some ==> items[x].coverage.unwrap()
                        <= items[y].coverage.unwrap()
                    &&& items[x].coverage == items[y].coverage ==> located_in_order(items[x], items[y])
                }
            },
{
    lemma_sorted_indices_is_stable_sort(items, indices, SortCriteria::Coverage);
    let r = sorted_indices(items, indices, SortCriteria::Coverage);
    assert forall|i: int, j: int| #![trigger r[i], r[j]] 0 <= i < j < indices.len() implies {
        let x = r[i] as int;
        let y = r[j] as int;
        x < items.len() && y < items.len() ==> {
            &&& items[y].coverage is None ==> items[x].coverage is None
            &&& items[x].coverage is Some && items[y].coverage is Some ==> items[x].coverage.unwrap()
                <= items[y].coverage.unwrap()
            &&& items[x].coverage == items[y].coverage ==> located_in_order(items[x], items[y])
        }
    } by {
        lemma_key_le_first(
            index_key(items, r[i] as int, SortCriteria::Coverage),
            index_key(items, r[j] as int, SortCriteria::Coverage),
        );
    }
}

/// Sorting by complexity puts higher cyclomatic complexity first: along the
/// result it never increases, indices naming no item come last, and equal
/// complexity comes by location.
pub proof fn lemma_sort_by_complexity_highest_first(items: Seq<UnifiedDebtItem>, indices: Seq<usize>)
    ensures
        forall|i: int, j: int|
            #![trigger sorted_indices(items, indices, SortCriteria::Complexity)[i], sorted_indices(items, indices, SortCriteria::Complexity)[j]]
            0 <= i < j < indices.len() ==> {
                let r = sorted_indices(items, indices, SortCriteria::Complexity);
                let x = r[i] as int;
                let y = r[j] as int;
                y < items.len() ==> x < items.len() && items[x].cyclomatic_complexity >= items[y].cyclomatic_complexity
            && (items[x].cyclomatic_complexity == items[y].cyclomatic_complexity ==> located_in_order(items[x], items[y]))
                    && (items[x].cyclomatic_complexity == items[y].cyclomatic_complexity ==> located_in_order(items[x], items[y]))
            },
{
    lemma_sorted_indices_is_stable_sort(items, indices, SortCriteria::Complexity);
    let r = sorted_indices(items, indices, SortCriteria::Complexity);
    assert forall|i: int, j: int| #![trigger r[i], r[j]] 0 <= i < j < indices.len() implies {
        let x = r[i] as int;
        let y = r[j] as int;
        y < items.len() ==> x < items.len() && items[x].cyclomatic_complexity >= items[y].cyclomatic_complexity
            && (items[x].cyclomatic_complexity == items[y].cyclomatic_complexity ==> located_in_order(items[x], items[y]))
    } by {
        lemma_key_le_first(
            index_key(items, r[i] as int, SortCriteria::Complexity),
            index_key(items, r[j] as int, SortCriteria::Complexity),
        );
    }
}

/// Sorting by file path orders items by path (component by component),
/// then by line; indices naming no item come first.
pub proof fn lemma_sort_by_file_path_in_order(items: Seq<UnifiedDebtItem>, indices: Seq<usize>)
    ensures
        forall|i: int, j: int|
            #![trigger sorted_indices(items, indices, SortCriteria::FilePath)[i], sorted_indices(items, indices, SortCriteria::FilePath)[j]]
            0 <= i < j < indices.len() ==> {
                let r = sorted_indices(items, indices, SortCriteria::FilePath);
                let x = r[i] as int;
                let y = r[j] as int;
                x < items.len() ==> y < items.len() && {
                    let px = path_ranks(items[x].location.file@);
                    let py = path_ranks(items[y].location.file@);
                    &&& !seq_lt(py, px)
                    &&& px == py ==> items[x].location.line <= items[y].location.line
                }
            },
{
    lemma_sorted_indices_is_stable_sort(items, indices, SortCriteria::FilePath);
    let r = sorted_indices(items, indices, SortCriteria::FilePath);
    assert forall|i: int, j: int| #![trigger r[i], r[j]] 0 <= i < j < indices.len() implies {
        let x = r[i] as int;
        let y = r[j] as int;
        x < items.len() ==> y < items.len() && {
            let px = path_ranks(items[x].location.file@);
            let py = path_ranks(items[y].location.file@);
            &&& !seq_lt(py, px)
            &&& px == py ==> items[x].location.line <= items[y].location.line
        }
    } by {
        lemma_key_le_first(
            index_key(items, r[i] as int, SortCriteria::FilePath),
            index_key(items, r[j] as int, SortCriteria::FilePath),
        );
    }
}

/// Sorting by function name orders items alphabetically by name, the same
/// name by location; indices naming no item come first.
pub proof fn lemma_sort_by_function_name_in_order(items: Seq<UnifiedDebtItem>, indices: Seq<usize>)
    ensures
        forall|i: int, j: int|
            #![trigger sorted_indices(items, indices, SortCriteria::FunctionName)[i], sorted_indices(items, indices, SortCriteria::FunctionName)[j]]
            0 <= i < j < indices.len() ==> {
                let r = sorted_indices(items, indices, SortCriteria::FunctionName);
                let x = r[i] as int;
                let y = r[j] as int;
                x < items.len() ==> y < items.len() && !seq_lt(
                    text_ranks(items[y].location.function@),
                    text_ranks(items[x].location.function@),
                ) && (items[x].location.function@ == items[y].location.function@ ==> located_in_order(items[x], items[y]))
            },
{
    lemma_sorted_indices_is_stable_sort(items, indices, SortCriteria::FunctionName);
    let r = sorted_indices(items, indices, SortCriteria::FunctionName);
    assert forall|i: int, j: int| #![trigger r[i], r[j]] 0 <= i < j < indices.len() implies {
        let x = r[i] as int;
        let y = r[j] as int;
        x < items.len() ==> y < items.len() && !seq_lt(
            text_ranks(items[y].location.function@),
            text_ranks(items[x].location.function@),
        ) && (items[x].location.function@ == items[y].location.function@ ==> located_in_order(items[x], items[y]))
    } by {
        lemma_key_le_first(
            index_key(items, r[i] as int, SortCriteria::FunctionName),
            index_key(items, r[j] as int, SortCriteria::FunctionName),
        );
    }
}

} // verus!
