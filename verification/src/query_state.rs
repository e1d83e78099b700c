//! Filtering, sorting, and search state.
use vstd::prelude::*;
use crate::filter::{Filter, all_filters_match, matches_all};
use crate::item::{UnifiedAnalysis, UnifiedDebtItem};
use crate::search::{SearchState, filter_items, search_results, all_positions, item_match_score, lemma_search_results_best_first};
use crate::sort::{SortCriteria, sort_indices, sorted_indices, lemma_sorted_indices_is_stable_sort};

verus! {

/// Indices (in order) whose item exists and passes every filter.
pub open spec fn kept_indices(
    indices: Seq<usize>,
    items: Seq<UnifiedDebtItem>,
    filters: Seq<Filter>,
) -> Seq<usize>
    decreases indices.len(),
{
    if indices.len() == 0 {
        Seq::empty()
    } else {
        let prev = kept_indices(indices.drop_last(), items, filters);
        let idx = indices.last();
        if idx < items.len() && all_filters_match(filters, items[idx as int]) {
            prev.push(idx)
        } else {
            prev
        }
    }
}

/// Indices left by the filters: all of them when there is no filter.
pub open spec fn filtered(indices: Seq<usize>, items: Seq<UnifiedDebtItem>, filters: Seq<Filter>) -> Seq<usize> {
    if filters.len() == 0 {
        indices
    } else {
        kept_indices(indices, items, filters)
    }
}

/// The indices a query shows: search results, then filters, then sorting.
pub open spec fn query_results(
    items: Seq<UnifiedDebtItem>,
    query: Seq<char>,
    filters: Seq<Filter>,
    sort_by: SortCriteria,
) -> Seq<usize> {
    sorted_indices(items, filtered(search_results(items, query), items, filters), sort_by)
}

/// Manages filtering, sorting, and search state.
#[derive(Debug)]
pub struct QueryState {
    filtered_indices: Vec<usize>,
    search: SearchState,
    filters: Vec<Filter>,
    sort_by: SortCriteria,
}

impl QueryState {
    /// The indices currently shown.
    pub closed spec fn indices(self) -> Seq<usize> {
        self.filtered_indices@
    }

    /// The search being edited.
    pub closed spec fn search_state(self) -> SearchState {
        self.search
    }

    /// The active filters.
    pub closed spec fn filter_list(self) -> Seq<Filter> {
        self.filters@
    }

    /// The sort criterion.
    pub closed spec fn criteria(self) -> SortCriteria {
        self.sort_by
    }

    /// Create new query state for given item count.
    pub fn new(item_count: usize) -> (r: Self)
        ensures
            r.indices() == all_positions(item_count as nat),
            r.search_state().text() == Seq::<char>::empty(),
            r.search_state().cursor() == 0,
            r.filter_list() == Seq::<Filter>::empty(),
            r.criteria() == SortCriteria::Score,
    {
        let mut v: Vec<usize> = Vec::new();
        let mut i: usize = 0;
        while i < item_count
            invariant
                i <= item_count,
                v.len() == i,
                forall|j: int| 0 <= j < i ==> v@[j] == j,
            decreases item_count - i,
        {
            v.push(i);
            i = i + 1;
        }
        assert(v@ =~= all_positions(item_count as nat));
        QueryState {
            filtered_indices: v,
            search: SearchState::new(),
            filters: Vec::new(),
            sort_by: SortCriteria::Score,
        }
    }

    /// Get filtered indices.
    pub fn filtered_indices(&self) -> (r: &[usize])
        ensures
            r@ == self.indices(),
    {
        self.filtered_indices.as_slice()
    }

    /// Get mutable filtered indices (for direct sort operations).
    pub fn filtered_indices_mut(&mut self) -> (r: &mut Vec<usize>)
        ensures
            r@ == old(self).indices(),
            final(self).indices() == final(r)@,
            final(self).search_state() == old(self).search_state(),
            final(self).filter_list() == old(self).filter_list(),
            final(self).criteria() == old(self).criteria(),
    {
        &mut self.filtered_indices
    }

    /// Get search state reference.
    pub fn search(&self) -> (r: &SearchState)
        ensures
            *r == self.search_state(),
    {
        &self.search
    }

    /// Get mutable search state reference.
    pub fn search_mut(&mut self) -> (r: &mut SearchState)
        ensures
            *r == old(self).search_state(),
            final(self).search_state() == *final(r),
            final(self).indices() == old(self).indices(),
            final(self).filter_list() == old(self).filter_list(),
            final(self).criteria() == old(self).criteria(),
    {
        &mut self.search
    }

    /// Get active filters.
    pub fn filters(&self) -> (r: &[Filter])
        ensures
            r@ == self.filter_list(),
    {
        self.filters.as_slice()
    }

    /// Get current sort criteria.
    pub fn sort_by(&self) -> (r: SortCriteria)
        ensures
            r == self.criteria(),
    {
        self.sort_by
    }

    /// Set sort criteria and re-sort the shown indices.
    pub fn set_sort_by(&mut self, criteria: SortCriteria, analysis: &UnifiedAnalysis)
        ensures
            final(self).criteria() == criteria,
            final(self).indices() == sorted_indices(analysis.items@, old(self).indices(), criteria),
            final(self).search_state() == old(self).search_state(),
            final(self).filter_list() == old(self).filter_list(),
    {
        self.sort_by = criteria;
        sort_indices(&mut self.filtered_indices, &analysis.items, criteria);
    }

    /// Apply current search and filters, then sort.
    pub fn apply_search(&mut self, analysis: &UnifiedAnalysis)
        ensures
            final(self).indices() == query_results(
                analysis.items@,
                old(self).search_state().text(),
                old(self).filter_list(),
                old(self).criteria(),
            ),
            final(self).search_state() == old(self).search_state(),
            final(self).filter_list() == old(self).filter_list(),
            final(self).criteria() == old(self).criteria(),
    {
        self.reapply_all(analysis);
    }

    /// Add a filter and reapply.
    pub fn add_filter(&mut self, filter: Filter, analysis: &UnifiedAnalysis)
        ensures
            final(self).filter_list() == old(self).filter_list().push(filter),
            final(self).indices() == query_results(
                analysis.items@,
                old(self).search_state().text(),
                old(self).filter_list().push(filter),
                old(self).criteria(),
            ),
            final(self).search_state() == old(self).search_state(),
            final(self).criteria() == old(self).criteria(),
    {
        self.filters.push(filter);
        self.reapply_all(analysis);
    }

    /// Remove a filter by index and reapply; an index past the end changes nothing.
    pub fn remove_filter(&mut self, index: usize, analysis: &UnifiedAnalysis)
        ensures
            index < old(self).filter_list().len() ==> final(self).filter_list() == old(self).filter_list().remove(index as int)
                && final(self).indices() == query_results(
                analysis.items@,
                old(self).search_state().text(),
                old(self).filter_list().remove(index as int),
                old(self).criteria(),
            ),
            index >= old(self).filter_list().len() ==> final(self).filter_list() == old(self).filter_list()
                && final(self).indices() == old(self).indices(),
            final(self).search_state() == old(self).search_state(),
            final(self).criteria() == old(self).criteria(),
    {
        if index < self.filters.len() {
            self.filters.remove(index);
            self.reapply_all(analysis);
        }
    }

    /// Clear all filters and reapply.
    pub fn clear_filters(&mut self, analysis: &UnifiedAnalysis)
        ensures
            final(self).filter_list() == Seq::<Filter>::empty(),
            final(self).indices() == query_results(
                analysis.items@,
                old(self).search_state().text(),
                Seq::<Filter>::empty(),
                old(self).criteria(),
            ),
            final(self).search_state() == old(self).search_state(),
            final(self).criteria() == old(self).criteria(),
    {
        self.filters.clear();
        self.reapply_all(analysis);
    }

    fn reapply_all(&mut self, analysis: &UnifiedAnalysis)
        ensures
            final(self).indices() == query_results(
                analysis.items@,
                old(self).search_state().text(),
                old(self).filter_list(),
                old(self).criteria(),
            ),
            final(self).search_state() == old(self).search_state(),
            final(self).filter_list() == old(self).filter_list(),
            final(self).criteria() == old(self).criteria(),
    {
        let query = self.search.query();
        let base = filter_items(analysis, query.as_str());
        let kept = apply_filters(base, &self.filters, &analysis.items);
        self.filtered_indices = kept;
        sort_indices(&mut self.filtered_indices, &analysis.items, self.sort_by);
    }
}

/// Keeps the indices whose item exists and passes every filter; with no
/// filter, keeps all of them.
pub fn apply_filters(indices: Vec<usize>, filters: &Vec<Filter>, items: &Vec<UnifiedDebtItem>) -> (r: Vec<usize>)
    ensures
        r@ == filtered(indices@, items@, filters@),
{
    if filters.len() == 0 {
        return indices;
    }
    let mut r: Vec<usize> = Vec::new();
    let mut i: usize = 0;
    while i < indices.len()
        invariant
            i <= indices.len(),
            filters.len() > 0,
            r@ == kept_indices(indices@.take(i as int), items@, filters@),
        decreases indices.len() - i,
    {
        proof {
            assert(indices@.take(i + 1).drop_last() =~= indices@.take(i as int));
        }
        let idx = indices[i];
        if idx < items.len() && matches_all(filters, &items[idx]) {
            r.push(idx);
        }
        i = i + 1;
    }
    proof {
        assert(indices@.take(indices.len() as int) =~= indices@);
    }
    r
}


/// A new query state lists every item exactly once: its positions are
/// distinct and each is below the item count.
pub proof fn lemma_new_positions_distinct_in_bounds(n: nat, i: int, j: int)
    requires
        0 <= i < n,
        0 <= j < n,
        n <= usize::MAX + 1,
    ensures
        all_positions(n)[i] < n,
        i != j ==> all_positions(n)[i] != all_positions(n)[j],
{
}

/// The filters keep exactly the given indices whose item exists and passes
/// every filter.
proof fn lemma_kept_indices(indices: Seq<usize>, items: Seq<UnifiedDebtItem>, filters: Seq<Filter>)
    ensures
        forall|m: int|
            0 <= m < kept_indices(indices, items, filters).len() ==> {
                let x = #[trigger] kept_indices(indices, items, filters)[m];
                &&& x < items.len()
                &&& all_filters_match(filters, items[x as int])
                &&& indices.contains(x)
            },
        forall|k: int|
            0 <= k < indices.len() && indices[k] < items.len() && all_filters_match(filters, items[indices[k] as int])
                ==> kept_indices(indices, items, filters).contains(#[trigger] indices[k]),
    decreases indices.len(),
{
    if indices.len() > 0 {
        let front = indices.drop_last();
        lemma_kept_indices(front, items, filters);
        let prev = kept_indices(front, items, filters);
        let r = kept_indices(indices, items, filters);
        assert forall|m: int| 0 <= m < r.len() implies {
            let x = #[trigger] r[m];
            &&& x < items.len()
            &&& all_filters_match(filters, items[x as int])
            &&& indices.contains(x)
        } by {
            if m < prev.len() {
                assert(r[m] == prev[m]);
                let k = choose|k: int| 0 <= k < front.len() && front[k] == prev[m];
                assert(indices[k] == front[k]);
            } else {
                assert(indices[indices.len() - 1] == r[m]);
            }
        }
        assert forall|k: int|
            0 <= k < indices.len() && indices[k] < items.len() && all_filters_match(filters, items[indices[k] as int])
                implies r.contains(#[trigger] indices[k]) by {
            if k < indices.len() - 1 {
                assert(front[k] == indices[k]);
                let m = choose|m: int| 0 <= m < prev.len() && prev[m] == front[k];
                assert(r[m] == prev[m]);
            } else {
                assert(r[prev.len() as int] == indices[k]);
            }
        }
    }
}

/// A query shows exactly the items that match the search (every item for an
/// empty search) and pass every filter, each once per search result.
pub proof fn lemma_query_results_pass_filters(
    items: Seq<UnifiedDebtItem>,
    query: Seq<char>,
    filters: Seq<Filter>,
    sort_by: SortCriteria,
)
    requires
        items.len() <= usize::MAX,
    ensures
        forall|m: int|
            0 <= m < query_results(items, query, filters, sort_by).len() ==> {
                let x = #[trigger] query_results(items, query, filters, sort_by)[m];
                &&& x < items.len()
                &&& all_filters_match(filters, items[x as int])
                &&& query.len() > 0 ==> item_match_score(items[x as int], query) is Some
            },
        forall|p: int|
            0 <= p < items.len() && all_filters_match(filters, items[p]) && (query.len() == 0 || item_match_score(
                items[p],
                query,
            ) is Some) ==> #[trigger] query_results(items, query, filters, sort_by).contains(p as usize),
{
    let sr = search_results(items, query);
    let fr = filtered(sr, items, filters);
    let r = query_results(items, query, filters, sort_by);
    if query.len() > 0 {
        lemma_search_results_best_first(items, query);
    } else {
        assert forall|m: int| 0 <= m < sr.len() implies #[trigger] sr[m] < items.len() by {}
    }
    assert forall|m: int| 0 <= m < sr.len() implies #[trigger] sr[m] < items.len() && (query.len() > 0
        ==> item_match_score(items[sr[m] as int], query) is Some) by {}
    lemma_kept_indices(sr, items, filters);
    lemma_sorted_indices_is_stable_sort(items, fr, sort_by);
    assert forall|m: int| 0 <= m < r.len() implies {
        let x = #[trigger] r[m];
        &&& x < items.len()
        &&& all_filters_match(filters, items[x as int])
        &&& query.len() > 0 ==> item_match_score(items[x as int], query) is Some
    } by {
        assert(fr.contains(r[m]));
        let k = choose|k: int| 0 <= k < fr.len() && fr[k] == r[m];
        if filters.len() > 0 {
            assert(kept_indices(sr, items, filters)[k] == r[m]);
            let q = choose|q: int| 0 <= q < sr.len() && sr[q] == r[m];
            assert(sr[q] == r[m]);
        } else {
            assert(sr[k] == r[m]);
        }
    }
    assert forall|p: int|
        0 <= p < items.len() && all_filters_match(filters, items[p]) && (query.len() == 0 || item_match_score(
            items[p],
            query,
        ) is Some) implies #[trigger] r.contains(p as usize) by {
        let k = if query.len() == 0 {
            assert(sr[p] == p as usize);
            p
        } else {
            assert(sr.contains(p as usize));
            choose|k: int| 0 <= k < sr.len() && sr[k] == p as usize
        };
        assert(sr[k] == p as usize);
        assert(fr.contains(p as usize)) by {
            if filters.len() > 0 {
                assert(kept_indices(sr, items, filters).contains(sr[k]));
            } else {
                assert(fr[k] == p as usize);
            }
        }
        let j = choose|j: int| 0 <= j < fr.len() && fr[j] == p as usize;
        assert(r.contains(fr[j]));
    }
}

} // verus!
