//! Location-based grouping of debt items.
//!
//! Items at the same (file, function, line) location form one group; groups
//! are formed in order of first appearance and then stably sorted.
use vstd::prelude::*;
use crate::filter::{calculate_severity, severity_band, severity_name};
use crate::item::{Location, UnifiedDebtItem, locations_equal, same_location};
use crate::ordering::{
    SortKey, KeyView, sorted_by_keys, permute, stable_sort_positions, is_stable_sorted, key_lt, lemma_key_order,
    lemma_key_le_first, lemma_sorted_by_keys_ordered, seq_lt, stable_order,
};
use crate::sort::SortCriteria;
use crate::text::{path_ranks, text_ranks, path_rank_vec, text_rank_vec};

verus! {

/// A group of debt items at the same location.
#[derive(Debug)]
pub struct LocationGroup<'a> {
    /// Representative location (from first item).
    pub location: &'a Location,
    /// All debt items at this location, in input order.
    pub items: Vec<&'a UnifiedDebtItem>,
    /// Combined score (sum of all item scores, in hundredths).
    pub combined_score: u128,
    /// Highest severity among items (lowercase name).
    pub max_severity: String,
}

/// Aggregated metrics across all items in a group.
#[derive(Debug, Clone, Copy)]
pub struct AggregatedMetrics {
    pub cognitive_complexity: u32,
    pub nesting_depth: u32,
    pub function_length: usize,
    /// Coverage of the group's first item (hundredths of a percent).
    pub coverage: Option<u32>,
}

/// Index of the first group whose first item is at `loc`, or -1.
pub open spec fn group_index(g: Seq<Seq<usize>>, items: Seq<UnifiedDebtItem>, loc: Location) -> int
    decreases g.len(),
{
    if g.len() == 0 {
        -1
    } else {
        let k = group_index(g.drop_last(), items, loc);
        if k >= 0 {
            k
        } else if same_location(items[g.last()[0] as int].location, loc) {
            g.len() - 1
        } else {
            -1
        }
    }
}

/// Positions of `items` grouped by location, groups in order of first
/// appearance, positions within a group in input order.
pub open spec fn position_groups(items: Seq<UnifiedDebtItem>) -> Seq<Seq<usize>>
    decreases items.len(),
{
    if items.len() == 0 {
        Seq::empty()
    } else {
        let g = position_groups(items.drop_last());
        let p = (items.len() - 1) as usize;
        let k = group_index(g, items, items[p as int].location);
        if k >= 0 {
            g.update(k, g[k].push(p))
        } else {
            g.push(seq![p])
        }
    }
}

/// The items behind a sequence of references.
pub open spec fn values(s: Seq<&UnifiedDebtItem>) -> Seq<UnifiedDebtItem> {
    s.map_values(|x: &UnifiedDebtItem| *x)
}

/// The items at the positions of a group.
pub open spec fn group_members(items: Seq<UnifiedDebtItem>, grp: Seq<usize>) -> Seq<UnifiedDebtItem> {
    grp.map_values(|p: usize| items[p as int])
}

/// Sum of the scores of a group.
pub open spec fn group_score(s: Seq<UnifiedDebtItem>) -> int
    decreases s.len(),
{
    if s.len() == 0 {
        0
    } else {
        group_score(s.drop_last()) + s.last().final_score
    }
}

/// Highest score in a group (0 for an empty group).
pub open spec fn group_max_score(s: Seq<UnifiedDebtItem>) -> u64
    decreases s.len(),
{
    if s.len() == 0 {
        0
    } else {
        let m = group_max_score(s.drop_last());
        let x = s.last().final_score;
        if x > m {
            x
        } else {
            m
        }
    }
}

/// Highest cognitive complexity in a group.
pub open spec fn group_max_cognitive(s: Seq<UnifiedDebtItem>) -> u32
    decreases s.len(),
{
    if s.len() == 0 {
        0
    } else {
        let m = group_max_cognitive(s.drop_last());
        let x = s.last().cognitive_complexity;
        if x > m {
            x
        } else {
            m
        }
    }
}

/// Highest nesting depth in a group.
pub open spec fn group_max_nesting(s: Seq<UnifiedDebtItem>) -> u32
    decreases s.len(),
{
    if s.len() == 0 {
        0
    } else {
        let m = group_max_nesting(s.drop_last());
        let x = s.last().nesting_depth;
        if x > m {
            x
        } else {
            m
        }
    }
}

/// Highest function length in a group.
pub open spec fn group_max_length(s: Seq<UnifiedDebtItem>) -> usize
    decreases s.len(),
{
    if s.len() == 0 {
        0
    } else {
        let m = group_max_length(s.drop_last());
        let x = s.last().function_length;
        if x > m {
            x
        } else {
            m
        }
    }
}

/// Sort key of a group: the criterion on the group, then its first item's
/// file path (component-wise) and line.
///
/// - Score: higher combined score first (see `capped_score`).
/// - Coverage: no coverage first, then lower coverage of the first item first.
/// - Complexity: higher maximum cognitive complexity first.
/// - FilePath: by file path.
/// - FunctionName: by function name.
pub open spec fn group_key(items: Seq<UnifiedDebtItem>, grp: Seq<usize>, criteria: SortCriteria) -> KeyView {
    let s = group_members(items, grp);
    let first = s[0];
    let f = path_ranks(first.location.file@);
    let l = first.location.line as int;
    match criteria {
        SortCriteria::Score => (-capped_score(group_score(s)), Seq::empty(), 0, f, l),
        SortCriteria::Coverage => (
            if first.coverage is Some { first.coverage.unwrap() + 1 } else { 0 },
            Seq::empty(),
            0,
            f,
            l,
        ),
        SortCriteria::Complexity => (-(group_max_cognitive(s) as int), Seq::empty(), 0, f, l),
        SortCriteria::FilePath => (0, f, 0, f, l),
        SortCriteria::FunctionName => (0, text_ranks(first.location.function@), 0, f, l),
    }
}

/// A combined score as a key part: sums beyond the largest key value compare
/// as equal to it.
pub open spec fn capped_score(score: int) -> int {
    if score > 0x7fff_ffff_ffff_ffff_ffff_ffff_ffff_ffff {
        0x7fff_ffff_ffff_ffff_ffff_ffff_ffff_ffff
    } else {
        score
    }
}

/// The groups of `items` sorted under `criteria`.
pub open spec fn sorted_groups(items: Seq<UnifiedDebtItem>, criteria: SortCriteria) -> Seq<Seq<usize>> {
    let g = position_groups(items);
    sorted_by_keys(g, g.map_values(|grp: Seq<usize>| group_key(items, grp, criteria)))
}

/// A built group matches its positions.
pub open spec fn group_built(items: Seq<UnifiedDebtItem>, grp: Seq<usize>, lg: LocationGroup) -> bool {
    &&& values(lg.items@) == group_members(items, grp)
    &&& *lg.location == items[grp[0] as int].location
    &&& lg.combined_score == group_score(group_members(items, grp))
    &&& lg.max_severity@ == severity_name(severity_band(group_max_score(group_members(items, grp))))
}

/// Groups are nonempty and hold valid positions.
pub open spec fn groups_valid(g: Seq<Seq<usize>>, n: nat) -> bool {
    forall|k: int| 0 <= k < g.len() ==> {
        &&& (#[trigger] g[k]).len() > 0
        &&& forall|m: int| 0 <= m < g[k].len() ==> g[k][m] < n
    }
}

proof fn lemma_group_index(g: Seq<Seq<usize>>, items: Seq<UnifiedDebtItem>, loc: Location, j: int)
    requires
        0 <= j <= g.len(),
        forall|i: int| 0 <= i < j ==> !same_location(items[(#[trigger] g[i])[0] as int].location, loc),
    ensures
        j == g.len() ==> group_index(g, items, loc) == -1,
        j < g.len() && same_location(items[g[j][0] as int].location, loc) ==> group_index(g, items, loc) == j,
    decreases g.len(),
{
    if g.len() > 0 {
        let h = g.drop_last();
        if j < g.len() {
            if j < h.len() {
                assert forall|i: int| 0 <= i < j implies !same_location(items[(#[trigger] h[i])[0] as int].location, loc) by {
                    assert(h[i] == g[i]);
                }
                lemma_group_index(h, items, loc, j);
                assert(h[j] == g[j]);
            } else {
                assert forall|i: int| 0 <= i < h.len() implies !same_location(items[(#[trigger] h[i])[0] as int].location, loc) by {
                    assert(h[i] == g[i]);
                }
                lemma_group_index(h, items, loc, h.len() as int);
            }
        } else {
            assert forall|i: int| 0 <= i < h.len() implies !same_location(items[(#[trigger] h[i])[0] as int].location, loc) by {
                assert(h[i] == g[i]);
            }
            lemma_group_index(h, items, loc, h.len() as int);
        }
    }
}

proof fn lemma_group_index_range(g: Seq<Seq<usize>>, items: Seq<UnifiedDebtItem>, loc: Location)
    ensures
        -1 <= group_index(g, items, loc) < g.len(),
    decreases g.len(),
{
    if g.len() > 0 {
        lemma_group_index_range(g.drop_last(), items, loc);
    }
}

proof fn lemma_position_groups_valid(items: Seq<UnifiedDebtItem>)
    requires
        items.len() <= usize::MAX,
    ensures
        groups_valid(position_groups(items), items.len()),
    decreases items.len(),
{
    if items.len() > 0 {
        let h = items.drop_last();
        lemma_position_groups_valid(h);
        let g = position_groups(h);
        let p = (items.len() - 1) as usize;
        lemma_group_index_same_items(g, h, items, items[p as int].location);
        lemma_group_index_range(g, items, items[p as int].location);
        let r = position_groups(items);
        assert forall|k: int| 0 <= k < r.len() implies {
            &&& (#[trigger] r[k]).len() > 0
            &&& forall|m: int| 0 <= m < r[k].len() ==> r[k][m] < items.len()
        } by {
            if k < g.len() {
                assert(g[k].len() > 0);
            }
        }
    }
}

proof fn lemma_group_index_same_items(
    g: Seq<Seq<usize>>,
    h: Seq<UnifiedDebtItem>,
    items: Seq<UnifiedDebtItem>,
    loc: Location,
)
    requires
        groups_valid(g, h.len()),
        h.len() <= items.len(),
        forall|i: int| 0 <= i < h.len() ==> h[i] == items[i],
    ensures
        group_index(g, items, loc) == group_index(g, h, loc),
    decreases g.len(),
{
    if g.len() > 0 {
        assert(groups_valid(g.drop_last(), h.len())) by {
            assert forall|k: int| 0 <= k < g.drop_last().len() implies {
                &&& (#[trigger] g.drop_last()[k]).len() > 0
                &&& forall|m: int| 0 <= m < g.drop_last()[k].len() ==> g.drop_last()[k][m] < h.len()
            } by {
                assert(g.drop_last()[k] == g[k]);
            }
        }
        lemma_group_index_same_items(g.drop_last(), h, items, loc);
        assert(g.last() == g[g.len() - 1]);
    }
}

/// Whether position `p` is in one of the groups.
pub open spec fn in_some_group(g: Seq<Seq<usize>>, p: int) -> bool {
    exists|k: int, m: int| 0 <= k < g.len() && 0 <= m < g[k].len() && #[trigger] g[k][m] == p
}

/// Whether the groups `g` partition the positions of `items` by location:
/// every position is in exactly one group, once; the items of a group share
/// its first item's location; and different groups have different locations.
pub open spec fn partitions(items: Seq<UnifiedDebtItem>, g: Seq<Seq<usize>>) -> bool {
    &&& forall|k: int, m: int|
        0 <= k < g.len() && 0 <= m < g[k].len() ==> {
            &&& (#[trigger] g[k][m]) < items.len()
            &&& same_location(items[g[k][m] as int].location, items[g[k][0] as int].location)
        }
    &&& forall|k: int| 0 <= k < g.len() ==> (#[trigger] g[k]).len() > 0
    &&& forall|p: int| 0 <= p < items.len() ==> #[trigger] in_some_group(g, p)
    &&& forall|k1: int, m1: int, k2: int, m2: int|
        0 <= k1 < g.len() && 0 <= m1 < g[k1].len() && 0 <= k2 < g.len() && 0 <= m2 < g[k2].len() && #[trigger] g[k1][m1]
            == #[trigger] g[k2][m2] ==> k1 == k2 && m1 == m2
    &&& forall|k1: int, k2: int|
        0 <= k1 < g.len() && 0 <= k2 < g.len() && k1 != k2 ==> !same_location(
            items[(#[trigger] g[k1])[0] as int].location,
            items[(#[trigger] g[k2])[0] as int].location,
        )
}

/// The group `group_index` finds holds the location.
proof fn lemma_group_index_found(g: Seq<Seq<usize>>, items: Seq<UnifiedDebtItem>, loc: Location)
    ensures
        group_index(g, items, loc) >= 0 ==> group_index(g, items, loc) < g.len() && same_location(
            items[g[group_index(g, items, loc)][0] as int].location,
            loc,
        ),
        group_index(g, items, loc) < 0 ==> forall|i: int|
            0 <= i < g.len() ==> !same_location(items[(#[trigger] g[i])[0] as int].location, loc),
    decreases g.len(),
{
    if g.len() > 0 {
        let h = g.drop_last();
        lemma_group_index_found(h, items, loc);
        assert forall|i: int| 0 <= i < h.len() implies (#[trigger] h[i]) == g[i] by {}
        if group_index(g, items, loc) < 0 {
            assert forall|i: int| 0 <= i < g.len() implies !same_location(items[(#[trigger] g[i])[0] as int].location, loc) by {
                if i < h.len() {
                    assert(h[i] == g[i]);
                } else {
                    assert(g[i] == g.last());
                }
            }
        }
    }
}

/// Grouping keeps every item: each item position is in exactly one group,
/// once; a group's items share one location; and different groups have
/// different locations.
pub proof fn lemma_groups_partition(items: Seq<UnifiedDebtItem>)
    requires
        items.len() <= usize::MAX,
    ensures
        partitions(items, position_groups(items)),
    decreases items.len(),
{
    if items.len() > 0 {
        let h = items.drop_last();
        lemma_groups_partition(h);
        lemma_position_groups_valid(h);
        let g = position_groups(h);
        let p = (items.len() - 1) as usize;
        let loc = items[p as int].location;
        lemma_group_index_same_items(g, h, items, loc);
        lemma_group_index_found(g, h, loc);
        let k = group_index(g, items, loc);
        let r = position_groups(items);
        assert forall|i: int| 0 <= i < h.len() implies (#[trigger] h[i]) == items[i] by {}
        if k >= 0 {
            assert(r == g.update(k, g[k].push(p)));
            assert forall|a: int, m: int| 0 <= a < r.len() && 0 <= m < r[a].len() implies {
                &&& (#[trigger] r[a][m]) < items.len()
                &&& same_location(items[r[a][m] as int].location, items[r[a][0] as int].location)
            } by {
                if a == k {
                    assert(r[a] == g[k].push(p));
                    if m < g[k].len() {
                        assert(r[a][m] == g[k][m]);
                        assert(g[k][m] < h.len());
                    }
                    assert(r[a][0] == g[k][0]);
                } else {
                    assert(r[a] == g[a]);
                    assert(g[a][m] < h.len());
                    assert(g[a][0] < h.len());
                }
            }
            assert forall|a: int| 0 <= a < r.len() implies (#[trigger] r[a]).len() > 0 by {
                if a != k {
                    assert(r[a] == g[a]);
                }
            }
            assert forall|q: int| 0 <= q < items.len() implies #[trigger] in_some_group(r, q) by {
                if q == p {
                    assert(r[k][g[k].len() as int] == q);
                } else {
                    assert(in_some_group(g, q));
                    let (a, m) = choose|a: int, m: int| 0 <= a < g.len() && 0 <= m < g[a].len() && #[trigger] g[a][m] == q;
                    if a == k {
                        assert(r[k][m] == g[k][m]);
                    } else {
                        assert(r[a][m] == g[a][m]);
                    }
                }
            }
            assert forall|k1: int, m1: int, k2: int, m2: int|
                0 <= k1 < r.len() && 0 <= m1 < r[k1].len() && 0 <= k2 < r.len() && 0 <= m2 < r[k2].len() && #[trigger] r[k1][m1]
                    == #[trigger] r[k2][m2] implies k1 == k2 && m1 == m2 by {
                let old1 = !(k1 == k && m1 == g[k].len());
                let old2 = !(k2 == k && m2 == g[k].len());
                if old1 {
                    assert(r[k1][m1] == g[k1][m1]);
                    assert(g[k1][m1] < h.len());
                }
                if old2 {
                    assert(r[k2][m2] == g[k2][m2]);
                    assert(g[k2][m2] < h.len());
                }
            }
            assert forall|k1: int, k2: int| 0 <= k1 < r.len() && 0 <= k2 < r.len() && k1 != k2 implies !same_location(
                items[(#[trigger] r[k1])[0] as int].location,
                items[(#[trigger] r[k2])[0] as int].location,
            ) by {
                assert(r[k1][0] == g[k1][0]);
                assert(r[k2][0] == g[k2][0]);
                assert(g[k1][0] < h.len());
                assert(g[k2][0] < h.len());
                assert(g[k1][0] == g[k1][0]);
            }
        } else {
            assert(r == g.push(seq![p]));
            assert forall|a: int, m: int| 0 <= a < r.len() && 0 <= m < r[a].len() implies {
                &&& (#[trigger] r[a][m]) < items.len()
                &&& same_location(items[r[a][m] as int].location, items[r[a][0] as int].location)
            } by {
                if a < g.len() {
                    assert(r[a] == g[a]);
                    assert(g[a][m] < h.len());
                    assert(g[a][0] < h.len());
                }
            }
            assert forall|q: int| 0 <= q < items.len() implies #[trigger] in_some_group(r, q) by {
                if q == p {
                    assert(r[g.len() as int][0] == q);
                } else {
                    assert(in_some_group(g, q));
                    let (a, m) = choose|a: int, m: int| 0 <= a < g.len() && 0 <= m < g[a].len() && #[trigger] g[a][m] == q;
                    assert(r[a][m] == g[a][m]);
                }
            }
            assert forall|k1: int, m1: int, k2: int, m2: int|
                0 <= k1 < r.len() && 0 <= m1 < r[k1].len() && 0 <= k2 < r.len() && 0 <= m2 < r[k2].len() && #[trigger] r[k1][m1]
                    == #[trigger] r[k2][m2] implies k1 == k2 && m1 == m2 by {
                if k1 < g.len() {
                    assert(r[k1][m1] == g[k1][m1]);
                    assert(g[k1][m1] < h.len());
                }
                if k2 < g.len() {
                    assert(r[k2][m2] == g[k2][m2]);
                    assert(g[k2][m2] < h.len());
                }
            }
            assert forall|k1: int, k2: int| 0 <= k1 < r.len() && 0 <= k2 < r.len() && k1 != k2 implies !same_location(
                items[(#[trigger] r[k1])[0] as int].location,
                items[(#[trigger] r[k2])[0] as int].location,
            ) by {
                if k1 < g.len() {
                    assert(r[k1] == g[k1]);
                    assert(g[k1][0] < h.len());
                }
                if k2 < g.len() {
                    assert(r[k2] == g[k2]);
                    assert(g[k2][0] < h.len());
                }
            }
        }
    }
}

/// Reordering groups by a stable sort keeps them a partition.
proof fn lemma_permute_partition(items: Seq<UnifiedDebtItem>, g: Seq<Seq<usize>>, keys: Seq<KeyView>, perm: Seq<int>)
    requires
        partitions(items, g),
        keys.len() == g.len(),
        is_stable_sorted(keys, perm),
    ensures
        partitions(items, permute(g, perm)),
{
    lemma_key_order();
    let r = permute(g, perm);
    assert forall|a: int, b: int| 0 <= a < perm.len() && 0 <= b < perm.len() && a != b implies perm[a] != perm[b] by {
        if a < b {
            assert(crate::ordering::pair_lt(keys, perm[a], perm[b]));
        } else {
            assert(crate::ordering::pair_lt(keys, perm[b], perm[a]));
        }
        if perm[a] == perm[b] {
            assert(!key_lt(keys[perm[a]], keys[perm[a]]));
        }
    }
    assert forall|a: int| 0 <= a < r.len() implies (#[trigger] r[a]) == g[perm[a]] by {}
    assert forall|a: int, m: int| 0 <= a < r.len() && 0 <= m < r[a].len() implies {
        &&& (#[trigger] r[a][m]) < items.len()
        &&& same_location(items[r[a][m] as int].location, items[r[a][0] as int].location)
    } by {
        assert(r[a] == g[perm[a]]);
        assert(g[perm[a]][m] == r[a][m]);
    }
    assert forall|a: int| 0 <= a < r.len() implies (#[trigger] r[a]).len() > 0 by {
        assert(r[a] == g[perm[a]]);
    }
    assert forall|q: int| 0 <= q < items.len() implies #[trigger] in_some_group(r, q) by {
        assert(in_some_group(g, q));
        let (k, m) = choose|k: int, m: int| 0 <= k < g.len() && 0 <= m < g[k].len() && #[trigger] g[k][m] == q;
        assert(perm.contains(k));
        let a = choose|a: int| 0 <= a < perm.len() && perm[a] == k;
        assert(r[a] == g[k]);
        assert(r[a][m] == q);
    }
    assert forall|k1: int, m1: int, k2: int, m2: int|
        0 <= k1 < r.len() && 0 <= m1 < r[k1].len() && 0 <= k2 < r.len() && 0 <= m2 < r[k2].len() && #[trigger] r[k1][m1]
            == #[trigger] r[k2][m2] implies k1 == k2 && m1 == m2 by {
        assert(r[k1] == g[perm[k1]]);
        assert(r[k2] == g[perm[k2]]);
        assert(g[perm[k1]][m1] == g[perm[k2]][m2]);
    }
    assert forall|k1: int, k2: int| 0 <= k1 < r.len() && 0 <= k2 < r.len() && k1 != k2 implies !same_location(
        items[(#[trigger] r[k1])[0] as int].location,
        items[(#[trigger] r[k2])[0] as int].location,
    ) by {
        assert(r[k1] == g[perm[k1]]);
        assert(r[k2] == g[perm[k2]]);
    }
}

proof fn lemma_group_score_bound(s: Seq<UnifiedDebtItem>)
    ensures
        0 <= group_score(s) <= s.len() * 0xffff_ffff_ffff_ffff,
    decreases s.len(),
{
    if s.len() > 0 {
        lemma_group_score_bound(s.drop_last());
        assert(group_score(s) <= (s.len() - 1) * 0xffff_ffff_ffff_ffff + 0xffff_ffff_ffff_ffff);
        assert((s.len() - 1) * 0xffff_ffff_ffff_ffff + 0xffff_ffff_ffff_ffff == s.len() * 0xffff_ffff_ffff_ffff) by (nonlinear_arith);
    }
}

/// The sum of `s.len()` scores stays within `u128` with room to spare.
pub(crate) proof fn lemma_score_sum_bound(s: Seq<UnifiedDebtItem>)
    requires
        s.len() <= usize::MAX,
    ensures
        0 <= group_score(s) < u128::MAX - 5,
{
    lemma_group_score_bound(s);
    assert(s.len() * 0xffff_ffff_ffff_ffff < u128::MAX - 5) by (nonlinear_arith)
        requires
            s.len() <= 0xffff_ffff_ffff_ffff;
}

/// Sum of the scores of some items.
pub(crate) fn score_sum(members: &Vec<&UnifiedDebtItem>) -> (r: u128)
    ensures
        r == group_score(values(members@)),
{
    group_totals(members).score
}

/// Statistics of one group computed in a single pass.
struct GroupTotals {
    score: u128,
    max_score: u64,
    max_cognitive: u32,
    max_nesting: u32,
    max_length: usize,
}

fn group_totals(members: &Vec<&UnifiedDebtItem>) -> (t: GroupTotals)
    ensures
        t.score == group_score(values(members@)),
        t.max_score == group_max_score(values(members@)),
        t.max_cognitive == group_max_cognitive(values(members@)),
        t.max_nesting == group_max_nesting(values(members@)),
        t.max_length == group_max_length(values(members@)),
{
    let mut t = GroupTotals { score: 0, max_score: 0, max_cognitive: 0, max_nesting: 0, max_length: 0 };
    let mut i: usize = 0;
    while i < members.len()
        invariant
            i <= members.len(),
            t.score == group_score(values(members@).take(i as int)),
            t.max_score == group_max_score(values(members@).take(i as int)),
            t.max_cognitive == group_max_cognitive(values(members@).take(i as int)),
            t.max_nesting == group_max_nesting(values(members@).take(i as int)),
            t.max_length == group_max_length(values(members@).take(i as int)),
        decreases members.len() - i,
    {
        let it = members[i];
        proof {
            assert(values(members@).take(i + 1).drop_last() =~= values(members@).take(i as int));
            lemma_group_score_bound(values(members@).take(i + 1));
            assert((i + 1) * 0xffff_ffff_ffff_ffff <= 0xffff_ffff_ffff_ffff_ffff_ffff_ffff_ffff) by (nonlinear_arith)
                requires
                    i < 0x1_0000_0000_0000_0000;
        }
        t.score = t.score + it.final_score as u128;
        if it.final_score > t.max_score {
            t.max_score = it.final_score;
        }
        if it.cognitive_complexity > t.max_cognitive {
            t.max_cognitive = it.cognitive_complexity;
        }
        if it.nesting_depth > t.max_nesting {
            t.max_nesting = it.nesting_depth;
        }
        if it.function_length > t.max_length {
            t.max_length = it.function_length;
        }
        i = i + 1;
    }
    proof {
        assert(values(members@).take(members.len() as int) =~= values(members@));
    }
    t
}

/// Groups the positions of `items` by location, in order of first appearance.
fn build_position_groups(items: &Vec<&UnifiedDebtItem>) -> (g: Vec<Vec<usize>>)
    ensures
        g@.map_values(|v: Vec<usize>| v@) == position_groups(values(items@)),
        groups_valid(position_groups(values(items@)), items.len() as nat),
{
    let mut groups: Vec<Vec<usize>> = Vec::new();
    let mut i: usize = 0;
    while i < items.len()
        invariant
            i <= items.len(),
            groups@.map_values(|v: Vec<usize>| v@) == position_groups(values(items@).take(i as int)),
            groups_valid(position_groups(values(items@).take(i as int)), i as nat),
        decreases items.len() - i,
    {
        let ghost vs = values(items@);
        let ghost h = vs.take(i as int);
        let ghost t = vs.take(i + 1);
        let ghost gv = groups@.map_values(|v: Vec<usize>| v@);
        let loc = &items[i].location;
        proof {
            assert(t.drop_last() =~= h);
            assert(t[i as int] == vs[i as int]);
            lemma_position_groups_valid(t);
            lemma_group_index_same_items(gv, h, t, vs[i as int].location);
        }
        let mut j: usize = 0;
        let mut found = false;
        while !found && j < groups.len()
            invariant
                j <= groups.len(),
                i < items.len(),
                gv == groups@.map_values(|v: Vec<usize>| v@),
                groups_valid(gv, i as nat),
                t == values(items@).take(i + 1),
                found ==> j < groups.len() && same_location(t[gv[j as int][0] as int].location, *loc),
                forall|jj: int| 0 <= jj < j ==> !same_location(t[(#[trigger] gv[jj])[0] as int].location, *loc),
            decreases groups.len() - j + (if found { 0int } else { 1int }),
        {
            assert(gv[j as int] == groups@[j as int]@);
            assert(gv[j as int].len() > 0);
            let p = groups[j][0];
            assert(t[p as int] == values(items@)[p as int]);
            if locations_equal(&items[p].location, loc) {
                found = true;
            } else {
                j = j + 1;
            }
        }
        proof {
            lemma_group_index(gv, t, *loc, j as int);
        }
        if found {
            let mut v = groups[j].clone();
            assert(v@ =~= gv[j as int]);
            v.push(i);
            groups.set(j, v);
        } else {
            let mut v: Vec<usize> = Vec::new();
            v.push(i);
            groups.push(v);
        }
        proof {
            assert(groups@.map_values(|v: Vec<usize>| v@) =~= position_groups(t));
            lemma_position_groups_valid(t);
        }
        i = i + 1;
    }
    proof {
        assert(values(items@).take(items.len() as int) =~= values(items@));
    }
    groups
}

/// Sort key of one group.
fn group_sort_key(items: &Vec<&UnifiedDebtItem>, grp: &Vec<usize>, totals: &GroupTotals, criteria: SortCriteria) -> (k: SortKey)
    requires
        grp.len() > 0,
        forall|m: int| 0 <= m < grp.len() ==> grp@[m] < items.len(),
        totals.score == group_score(group_members(values(items@), grp@)),
        totals.max_cognitive == group_max_cognitive(group_members(values(items@), grp@)),
    ensures
        k@ == group_key(values(items@), grp@, criteria),
{
    let first = items[grp[0]];
    let f = path_rank_vec(first.location.file.as_str());
    let l = first.location.line as i128;
    assert(group_members(values(items@), grp@)[0] == *first);
    match criteria {
        SortCriteria::Score => {
            let capped: u128 = if totals.score > 0x7fff_ffff_ffff_ffff_ffff_ffff_ffff_ffff {
                0x7fff_ffff_ffff_ffff_ffff_ffff_ffff_ffff
            } else {
                totals.score
            };
            SortKey { a: -(capped as i128), b: Vec::new(), c: 0, d: f, e: l }
        },
        SortCriteria::Coverage => {
            let a: i128 = match first.coverage {
                Some(c) => c as i128 + 1,
                None => 0,
            };
            SortKey { a, b: Vec::new(), c: 0, d: f, e: l }
        },
        SortCriteria::Complexity => SortKey { a: -(totals.max_cognitive as i128), b: Vec::new(), c: 0, d: f, e: l },
        SortCriteria::FilePath => {
            let f2 = path_rank_vec(first.location.file.as_str());
            SortKey { a: 0, b: f2, c: 0, d: f, e: l }
        },
        SortCriteria::FunctionName => {
            let b = text_rank_vec(first.location.function.as_str());
            SortKey { a: 0, b, c: 0, d: f, e: l }
        },
    }
}

fn members_of<'a>(items: &Vec<&'a UnifiedDebtItem>, grp: &Vec<usize>) -> (r: Vec<&'a UnifiedDebtItem>)
    requires
        forall|m: int| 0 <= m < grp.len() ==> grp@[m] < items.len(),
    ensures
        values(r@) == group_members(values(items@), grp@),
        r@.len() == grp@.len(),
{
    let mut r: Vec<&'a UnifiedDebtItem> = Vec::new();
    let mut m: usize = 0;
    while m < grp.len()
        invariant
            m <= grp.len(),
            forall|j: int| 0 <= j < grp.len() ==> grp@[j] < items.len(),
            r.len() == m,
            forall|j: int| 0 <= j < m ==> r@[j] == items@[grp@[j] as int],
        decreases grp.len() - m,
    {
        r.push(items[grp[m]]);
        m = m + 1;
    }
    assert(values(r@) =~= group_members(values(items@), grp@));
    r
}

/// Group debt items by (file, function, line) location and sort the groups
/// by criteria (stable: equal groups keep their order of first appearance).
pub fn group_by_location<'a>(items: &Vec<&'a UnifiedDebtItem>, sort_by: SortCriteria) -> (r: Vec<LocationGroup<'a>>)
    ensures
        r.len() == sorted_groups(values(items@), sort_by).len(),
        forall|i: int| 0 <= i < r.len() ==> group_built(values(items@), sorted_groups(values(items@), sort_by)[i], #[trigger] r@[i]),
        forall|i: int| 0 <= i < r.len() ==> (#[trigger] r@[i]).items@.len() > 0,
        partitions(values(items@), sorted_groups(values(items@), sort_by)),
{
    let groups = build_position_groups(items);
    let ghost gv = groups@.map_values(|v: Vec<usize>| v@);
    let mut keys: Vec<SortKey> = Vec::new();
    let mut totals: Vec<GroupTotals> = Vec::new();
    let mut k: usize = 0;
    while k < groups.len()
        invariant
            k <= groups.len(),
            gv == groups@.map_values(|v: Vec<usize>| v@),
            gv == position_groups(values(items@)),
            groups_valid(gv, items.len() as nat),
            keys.len() == k,
            totals.len() == k,
            forall|j: int| 0 <= j < k ==> (#[trigger] keys@[j])@ == group_key(values(items@), gv[j], sort_by),
            forall|j: int| 0 <= j < k ==> {
                let t = #[trigger] totals@[j];
                &&& t.score == group_score(group_members(values(items@), gv[j]))
                &&& t.max_score == group_max_score(group_members(values(items@), gv[j]))
            },
        decreases groups.len() - k,
    {
        assert(gv[k as int] == groups@[k as int]@);
        let members = members_of(items, &groups[k]);
        let t = group_totals(&members);
        let key = group_sort_key(items, &groups[k], &t, sort_by);
        keys.push(key);
        totals.push(t);
        k = k + 1;
    }
    proof {
        assert(keys@.map_values(|x: SortKey| x@) =~= gv.map_values(|grp: Seq<usize>| group_key(values(items@), grp, sort_by)));
    }
    let perm = stable_sort_positions(&keys);
    let ghost pv = perm@.map_values(|p: usize| p as int);
    let ghost sorted = permute(gv, pv);
    proof {
        lemma_groups_partition(values(items@));
        lemma_permute_partition(values(items@), gv, keys@.map_values(|x: SortKey| x@), pv);
    }
    let mut r: Vec<LocationGroup<'a>> = Vec::new();
    let mut m: usize = 0;
    while m < perm.len()
        invariant
            m <= perm.len(),
            gv == groups@.map_values(|v: Vec<usize>| v@),
            groups_valid(gv, items.len() as nat),
            pv == perm@.map_values(|p: usize| p as int),
            pv.len() == groups.len(),
            forall|j: int| 0 <= j < pv.len() ==> 0 <= #[trigger] pv[j] < groups.len(),
            sorted == permute(gv, pv),
            totals.len() == groups.len(),
            forall|j: int| 0 <= j < groups.len() ==> {
                let t = #[trigger] totals@[j];
                &&& t.score == group_score(group_members(values(items@), gv[j]))
                &&& t.max_score == group_max_score(group_members(values(items@), gv[j]))
            },
            r.len() == m,
            forall|j: int| 0 <= j < m ==> group_built(values(items@), sorted[j], #[trigger] r@[j]),
            forall|j: int| 0 <= j < m ==> (#[trigger] r@[j]).items@.len() > 0,
        decreases perm.len() - m,
    {
        assert(pv[m as int] == perm@[m as int] as int);
        let q = perm[m];
        assert(gv[q as int] == groups@[q as int]@);
        let grp = &groups[q];
        let members = members_of(items, grp);
        let first: &'a UnifiedDebtItem = items[grp[0]];
        let sev = calculate_severity(totals[q].max_score);
        let lg = LocationGroup {
            location: &first.location,
            items: members,
            combined_score: totals[q].score,
            max_severity: String::from_str(sev),
        };
        r.push(lg);
        m = m + 1;
    }
    r
}

/// Extract all unique metrics across items in group.
pub fn aggregate_metrics(group: &LocationGroup) -> (r: AggregatedMetrics)
    requires
        group.items.len() > 0,
    ensures
        r.cognitive_complexity == group_max_cognitive(values(group.items@)),
        r.nesting_depth == group_max_nesting(values(group.items@)),
        r.function_length == group_max_length(values(group.items@)),
        r.coverage == group.items@[0].coverage,
{
    let t = group_totals(&group.items);
    AggregatedMetrics {
        cognitive_complexity: t.max_cognitive,
        nesting_depth: t.max_nesting,
        function_length: t.max_length,
        coverage: group.items[0].coverage,
    }
}

/// Get numeric rank for severity (higher = more severe).
pub fn severity_rank(severity: &str) -> (r: u8)
    ensures
        r == (if severity@ == "critical"@ {
            4u8
        } else if severity@ == "high"@ {
            3u8
        } else if severity@ == "medium"@ {
            2u8
        } else if severity@ == "low"@ {
            1u8
        } else {
            0u8
        }),
{
    if crate::text::str_equal(severity, "critical") {
        4
    } else if crate::text::str_equal(severity, "high") {
        3
    } else if crate::text::str_equal(severity, "medium") {
        2
    } else if crate::text::str_equal(severity, "low") {
        1
    } else {
        0
    }
}

/// The highest cognitive complexity of a group is the maximum over its
/// members: no member exceeds it, and some member reaches it.
pub proof fn lemma_group_max_cognitive_is_max(s: Seq<UnifiedDebtItem>)
    ensures
        forall|m: int| 0 <= m < s.len() ==> (#[trigger] s[m]).cognitive_complexity <= group_max_cognitive(s),
        s.len() > 0 ==> exists|m: int| 0 <= m < s.len() && (#[trigger] s[m]).cognitive_complexity == group_max_cognitive(s),
    decreases s.len(),
{
    if s.len() > 0 {
        let front = s.drop_last();
        lemma_group_max_cognitive_is_max(front);
        assert forall|m: int| 0 <= m < s.len() implies (#[trigger] s[m]).cognitive_complexity <= group_max_cognitive(s) by {
            if m < s.len() - 1 {
                assert(front[m] == s[m]);
            }
        }
        if s.last().cognitive_complexity > group_max_cognitive(front) || front.len() == 0 {
            assert(s[s.len() - 1].cognitive_complexity == group_max_cognitive(s));
        } else {
            let m = choose|m: int| 0 <= m < front.len() && (#[trigger] front[m]).cognitive_complexity == group_max_cognitive(front);
            assert(s[m] == front[m]);
        }
    }
}

/// The highest score of a group is the maximum over its members: no member
/// exceeds it, and some member reaches it.
pub proof fn lemma_group_max_score_is_max(s: Seq<UnifiedDebtItem>)
    ensures
        forall|m: int| 0 <= m < s.len() ==> (#[trigger] s[m]).final_score <= group_max_score(s),
        s.len() > 0 ==> exists|m: int| 0 <= m < s.len() && (#[trigger] s[m]).final_score == group_max_score(s),
    decreases s.len(),
{
    if s.len() > 0 {
        let front = s.drop_last();
        lemma_group_max_score_is_max(front);
        assert forall|m: int| 0 <= m < s.len() implies (#[trigger] s[m]).final_score <= group_max_score(s) by {
            if m < s.len() - 1 {
                assert(front[m] == s[m]);
            }
        }
        if s.last().final_score > group_max_score(front) || front.len() == 0 {
            assert(s[s.len() - 1].final_score == group_max_score(s));
        } else {
            let m = choose|m: int| 0 <= m < front.len() && (#[trigger] front[m]).final_score == group_max_score(front);
            assert(s[m] == front[m]);
        }
    }
}

/// The highest nesting depth of a group is the maximum over its members:
/// no member exceeds it, and some member reaches it.
pub proof fn lemma_group_max_nesting_is_max(s: Seq<UnifiedDebtItem>)
    ensures
        forall|m: int| 0 <= m < s.len() ==> (#[trigger] s[m]).nesting_depth <= group_max_nesting(s),
        s.len() > 0 ==> exists|m: int| 0 <= m < s.len() && (#[trigger] s[m]).nesting_depth == group_max_nesting(s),
    decreases s.len(),
{
    if s.len() > 0 {
        let front = s.drop_last();
        lemma_group_max_nesting_is_max(front);
        assert forall|m: int| 0 <= m < s.len() implies (#[trigger] s[m]).nesting_depth <= group_max_nesting(s) by {
            if m < s.len() - 1 {
                assert(front[m] == s[m]);
            }
        }
        if s.last().nesting_depth > group_max_nesting(front) || front.len() == 0 {
            assert(s[s.len() - 1].nesting_depth == group_max_nesting(s));
        } else {
            let m = choose|m: int| 0 <= m < front.len() && (#[trigger] front[m]).nesting_depth == group_max_nesting(front);
            assert(s[m] == front[m]);
        }
    }
}

/// The highest function length of a group is the maximum over its members:
/// no member exceeds it, and some member reaches it.
pub proof fn lemma_group_max_length_is_max(s: Seq<UnifiedDebtItem>)
    ensures
        forall|m: int| 0 <= m < s.len() ==> (#[trigger] s[m]).function_length <= group_max_length(s),
        s.len() > 0 ==> exists|m: int| 0 <= m < s.len() && (#[trigger] s[m]).function_length == group_max_length(s),
    decreases s.len(),
{
    if s.len() > 0 {
        let front = s.drop_last();
        lemma_group_max_length_is_max(front);
        assert forall|m: int| 0 <= m < s.len() implies (#[trigger] s[m]).function_length <= group_max_length(s) by {
            if m < s.len() - 1 {
                assert(front[m] == s[m]);
            }
        }
        if s.last().function_length > group_max_length(front) || front.len() == 0 {
            assert(s[s.len() - 1].function_length == group_max_length(s));
        } else {
            let m = choose|m: int| 0 <= m < front.len() && (#[trigger] front[m]).function_length == group_max_length(front);
            assert(s[m] == front[m]);
        }
    }
}

/// The keys the groups are sorted by, in order along the sorted groups.
proof fn lemma_sorted_group_keys(items: Seq<UnifiedDebtItem>, criteria: SortCriteria, i: int, j: int)
    requires
        0 <= i < j < sorted_groups(items, criteria).len(),
    ensures
        key_le_parts(
            group_key(items, sorted_groups(items, criteria)[i], criteria),
            group_key(items, sorted_groups(items, criteria)[j], criteria),
        ),
{
    let g = position_groups(items);
    let keys = g.map_values(|grp: Seq<usize>| group_key(items, grp, criteria));
    lemma_sorted_by_keys_ordered(g, keys);
    let perm = stable_order(keys);
    let sg = sorted_groups(items, criteria);
    assert(sg[i] == g[perm[i]]);
    assert(sg[j] == g[perm[j]]);
    lemma_key_le_first(keys[perm[i]], keys[perm[j]]);
}

/// What `key_le` says of the parts of two keys.
spec fn key_le_parts(x: KeyView, y: KeyView) -> bool {
    &&& x.0 <= y.0
    &&& x.0 == y.0 ==> !seq_lt(y.1, x.1)
    &&& x.0 == y.0 && x.1 == y.1 && x.2 == y.2 ==> !seq_lt(y.3, x.3)
    &&& x.0 == y.0 && x.1 == y.1 && x.2 == y.2 && x.3 == y.3 ==> x.4 <= y.4
}

/// Group `a` comes no later than group `b` by location (of their first
/// items): by file path, component by component, then by line.
pub open spec fn group_located_in_order(items: Seq<UnifiedDebtItem>, a: Seq<usize>, b: Seq<usize>) -> bool {
    let la = group_members(items, a)[0].location;
    let lb = group_members(items, b)[0].location;
    &&& !seq_lt(path_ranks(lb.file@), path_ranks(la.file@))
    &&& path_ranks(la.file@) == path_ranks(lb.file@) ==> la.line <= lb.line
}

/// Sorted by complexity, a group with a higher maximum cognitive complexity
/// comes before one with a lower: along the groups it never increases, and
/// groups with the same maximum come by location.
pub proof fn lemma_groups_by_complexity_highest_first(items: Seq<UnifiedDebtItem>)
    ensures
        forall|i: int, j: int|
            0 <= i < j < sorted_groups(items, SortCriteria::Complexity).len() ==> {
                let mi = group_max_cognitive(group_members(items, #[trigger] sorted_groups(items, SortCriteria::Complexity)[i]));
                let mj = group_max_cognitive(group_members(items, #[trigger] sorted_groups(items, SortCriteria::Complexity)[j]));
                &&& mi >= mj
                &&& mi == mj ==> group_located_in_order(items, sorted_groups(items, SortCriteria::Complexity)[i], sorted_groups(items, SortCriteria::Complexity)[j])
            },
{
    assert forall|i: int, j: int| 0 <= i < j < sorted_groups(items, SortCriteria::Complexity).len() implies {
        let mi = group_max_cognitive(group_members(items, #[trigger] sorted_groups(items, SortCriteria::Complexity)[i]));
        let mj = group_max_cognitive(group_members(items, #[trigger] sorted_groups(items, SortCriteria::Complexity)[j]));
        &&& mi >= mj
        &&& mi == mj ==> group_located_in_order(items, sorted_groups(items, SortCriteria::Complexity)[i], sorted_groups(items, SortCriteria::Complexity)[j])
    } by {
        lemma_sorted_group_keys(items, SortCriteria::Complexity, i, j);
    }
}

/// Sorted by score, groups come by combined score, highest first (sums
/// beyond the largest key value compare as equal to it).
pub proof fn lemma_groups_by_score_highest_first(items: Seq<UnifiedDebtItem>)
    ensures
        forall|i: int, j: int|
            0 <= i < j < sorted_groups(items, SortCriteria::Score).len() ==> {
                let si = group_score(group_members(items, #[trigger] sorted_groups(items, SortCriteria::Score)[i]));
                let sj = group_score(group_members(items, #[trigger] sorted_groups(items, SortCriteria::Score)[j]));
                si >= sj || si >= 0x7fff_ffff_ffff_ffff_ffff_ffff_ffff_ffff
            },
{
    assert forall|i: int, j: int| 0 <= i < j < sorted_groups(items, SortCriteria::Score).len() implies {
        let si = group_score(group_members(items, #[trigger] sorted_groups(items, SortCriteria::Score)[i]));
        let sj = group_score(group_members(items, #[trigger] sorted_groups(items, SortCriteria::Score)[j]));
        si >= sj || si >= 0x7fff_ffff_ffff_ffff_ffff_ffff_ffff_ffff
    } by {
        lemma_sorted_group_keys(items, SortCriteria::Score, i, j);
    }
}

/// Sorted by coverage, groups whose first item has no coverage come first,
/// then lower coverage before higher.
pub proof fn lemma_groups_by_coverage_lowest_first(items: Seq<UnifiedDebtItem>)
    ensures
        forall|i: int, j: int|
            0 <= i < j < sorted_groups(items, SortCriteria::Coverage).len() ==> {
                let ci = group_members(items, #[trigger] sorted_groups(items, SortCriteria::Coverage)[i])[0].coverage;
                let cj = group_members(items, #[trigger] sorted_groups(items, SortCriteria::Coverage)[j])[0].coverage;
                &&& cj is None ==> ci is None
                &&& ci is Some && cj is Some ==> ci.unwrap() <= cj.unwrap()
            },
{
    assert forall|i: int, j: int| 0 <= i < j < sorted_groups(items, SortCriteria::Coverage).len() implies {
        let ci = group_members(items, #[trigger] sorted_groups(items, SortCriteria::Coverage)[i])[0].coverage;
        let cj = group_members(items, #[trigger] sorted_groups(items, SortCriteria::Coverage)[j])[0].coverage;
        &&& cj is None ==> ci is None
        &&& ci is Some && cj is Some ==> ci.unwrap() <= cj.unwrap()
    } by {
        lemma_sorted_group_keys(items, SortCriteria::Coverage, i, j);
    }
}

/// Sorted by file path, groups come in path order (component by component)
/// of their location.
pub proof fn lemma_groups_by_file_path_in_order(items: Seq<UnifiedDebtItem>)
    ensures
        forall|i: int, j: int|
            0 <= i < j < sorted_groups(items, SortCriteria::FilePath).len() ==> !seq_lt(
                path_ranks(group_members(items, #[trigger] sorted_groups(items, SortCriteria::FilePath)[j])[0].location.file@),
                path_ranks(group_members(items, #[trigger] sorted_groups(items, SortCriteria::FilePath)[i])[0].location.file@),
            ),
{
    assert forall|i: int, j: int| 0 <= i < j < sorted_groups(items, SortCriteria::FilePath).len() implies !seq_lt(
        path_ranks(group_members(items, #[trigger] sorted_groups(items, SortCriteria::FilePath)[j])[0].location.file@),
        path_ranks(group_members(items, #[trigger] sorted_groups(items, SortCriteria::FilePath)[i])[0].location.file@),
    ) by {
        lemma_sorted_group_keys(items, SortCriteria::FilePath, i, j);
    }
}

/// Sorted by function name, groups come in alphabetical order of their
/// function.
pub proof fn lemma_groups_by_function_name_in_order(items: Seq<UnifiedDebtItem>)
    ensures
        forall|i: int, j: int|
            0 <= i < j < sorted_groups(items, SortCriteria::FunctionName).len() ==> !seq_lt(
                text_ranks(group_members(items, #[trigger] sorted_groups(items, SortCriteria::FunctionName)[j])[0].location.function@),
                text_ranks(group_members(items, #[trigger] sorted_groups(items, SortCriteria::FunctionName)[i])[0].location.function@),
            ),
{
    assert forall|i: int, j: int| 0 <= i < j < sorted_groups(items, SortCriteria::FunctionName).len() implies !seq_lt(
        text_ranks(group_members(items, #[trigger] sorted_groups(items, SortCriteria::FunctionName)[j])[0].location.function@),
        text_ranks(group_members(items, #[trigger] sorted_groups(items, SortCriteria::FunctionName)[i])[0].location.function@),
    ) by {
        lemma_sorted_group_keys(items, SortCriteria::FunctionName, i, j);
    }
}

} // verus!
