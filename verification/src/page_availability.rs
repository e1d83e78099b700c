//! Which detail pages have data for an item.
use vstd::prelude::*;
use crate::detail_page::DetailPage;
use crate::item::{DataFlowGraph, FunctionId, UnifiedDebtItem, function_id_view, holds_function, item_function_id};

verus! {

/// The item has contextual (git) risk information.
pub open spec fn spec_has_git_context(item: UnifiedDebtItem) -> bool {
    item.contextual_risk is Some
}

/// The item carries pattern data itself.
pub open spec fn spec_has_direct_pattern_data(item: UnifiedDebtItem) -> bool {
    ||| item.pattern_analysis is Some
    ||| item.detected_pattern is Some
    ||| item.is_pure is Some
    ||| item.language_specific is Some
    ||| item.entropy_details is Some
    ||| item.error_swallowing_count is Some
    ||| item.error_swallowing_patterns is Some
}

/// The item is a god object with aggregated pattern data.
pub open spec fn spec_has_god_object_pattern_data(item: UnifiedDebtItem) -> bool {
    match item.god_object_indicators {
        Some(g) => g.is_god_object && (g.aggregated_entropy is Some || g.aggregated_error_swallowing_count is Some
            || (g.aggregated_error_swallowing_patterns is Some && g.aggregated_error_swallowing_patterns.unwrap()@.len() > 0)),
        None => false,
    }
}

/// The data flow graph has purity information for the item's function.
pub open spec fn spec_has_purity_info(item: UnifiedDebtItem, df: DataFlowGraph) -> bool {
    holds_function(df.purity_set(), item_function_id(item))
}

/// The item has pattern data of any kind.
pub open spec fn spec_has_pattern_data(item: UnifiedDebtItem, df: DataFlowGraph) -> bool {
    spec_has_direct_pattern_data(item) || spec_has_purity_info(item, df) || spec_has_god_object_pattern_data(item)
}

/// The data flow graph has purity, mutation or I/O information for the item.
pub open spec fn spec_has_data_flow_data(item: UnifiedDebtItem, df: DataFlowGraph) -> bool {
    ||| holds_function(df.purity_set(), item_function_id(item))
    ||| holds_function(df.mutation_set(), item_function_id(item))
    ||| holds_function(df.io_set(), item_function_id(item))
}

/// Pages available for an item: Overview, Score Breakdown and Dependencies,
/// then Git Context, Patterns and Data Flow where the item has such data,
/// then Responsibilities.
pub open spec fn spec_available_pages(item: Option<UnifiedDebtItem>, df: DataFlowGraph) -> Seq<DetailPage> {
    let base = seq![DetailPage::Overview, DetailPage::ScoreBreakdown, DetailPage::Dependencies];
    let middle = match item {
        Some(it) => {
            let g = if spec_has_git_context(it) { seq![DetailPage::GitContext] } else { Seq::empty() };
            let p = if spec_has_pattern_data(it, df) { seq![DetailPage::Patterns] } else { Seq::empty() };
            let d = if spec_has_data_flow_data(it, df) { seq![DetailPage::DataFlow] } else { Seq::empty() };
            g + p + d
        },
        None => Seq::empty(),
    };
    base + middle + seq![DetailPage::Responsibilities]
}

/// Position of the first occurrence of `p` in `s`, or 0 when absent.
pub open spec fn position_or_first(s: Seq<DetailPage>, p: DetailPage) -> int {
    if s.contains(p) {
        choose|i: int| 0 <= i < s.len() && s[i] == p && forall|j: int| 0 <= j < i ==> s[j] != p
    } else {
        0
    }
}

/// The page after `current` among the available pages, wrapping.
pub open spec fn spec_next_available(s: Seq<DetailPage>, current: DetailPage) -> DetailPage {
    s[(position_or_first(s, current) + 1) % (s.len() as int)]
}

/// The page before `current` among the available pages, wrapping.
pub open spec fn spec_prev_available(s: Seq<DetailPage>, current: DetailPage) -> DetailPage {
    let i = position_or_first(s, current);
    if i == 0 {
        s[s.len() - 1]
    } else {
        s[i - 1]
    }
}

/// The view of an optional item reference.
pub open spec fn item_opt(item: Option<&UnifiedDebtItem>) -> Option<UnifiedDebtItem> {
    match item {
        Some(it) => Some(*it),
        None => None,
    }
}

/// The data flow identity of an item's function.
pub(crate) fn make_function_id(item: &UnifiedDebtItem) -> (r: FunctionId)
    ensures
        function_id_view(r) == item_function_id(*item),
{
    FunctionId::new(item.location.file.as_str(), item.location.function.as_str(), item.location.line)
}

/// Check if item has git context data.
pub fn has_git_context(item: &UnifiedDebtItem) -> (r: bool)
    ensures
        r == spec_has_git_context(*item),
{
    item.contextual_risk.is_some()
}

/// Check for direct pattern analysis data on the item.
pub fn has_direct_pattern_data(item: &UnifiedDebtItem) -> (r: bool)
    ensures
        r == spec_has_direct_pattern_data(*item),
{
    item.pattern_analysis.is_some() || item.detected_pattern.is_some() || item.is_pure.is_some()
        || item.language_specific.is_some()
        || item.entropy_details.is_some() || item.error_swallowing_count.is_some()
        || item.error_swallowing_patterns.is_some()
}

/// Check for god object pattern data with aggregated info.
pub fn has_god_object_pattern_data(item: &UnifiedDebtItem) -> (r: bool)
    ensures
        r == spec_has_god_object_pattern_data(*item),
{
    match &item.god_object_indicators {
        Some(god) => {
            god.is_god_object && (god.aggregated_entropy.is_some() || god.aggregated_error_swallowing_count.is_some()
                || match &god.aggregated_error_swallowing_patterns {
                Some(p) => p.len() > 0,
                None => false,
            })
        },
        None => false,
    }
}

/// Check if item has any pattern-related data.
pub fn has_pattern_data(item: &UnifiedDebtItem, data_flow: &DataFlowGraph) -> (r: bool)
    ensures
        r == spec_has_pattern_data(*item, *data_flow),
{
    has_direct_pattern_data(item) || data_flow.has_purity_info(&make_function_id(item)) || has_god_object_pattern_data(item)
}

/// Check if item has data flow analysis data.
pub fn has_data_flow_data(item: &UnifiedDebtItem, data_flow: &DataFlowGraph) -> (r: bool)
    ensures
        r == spec_has_data_flow_data(*item, *data_flow),
{
    let id = make_function_id(item);
    data_flow.has_purity_info(&id) || data_flow.has_mutation_info(&id) || data_flow.has_io_operations(&id)
}

/// Get available detail pages for an item.
pub fn available_pages(item: Option<&UnifiedDebtItem>, data_flow: &DataFlowGraph) -> (r: Vec<DetailPage>)
    ensures
        r@ == spec_available_pages(item_opt(item), *data_flow),
{
    let mut pages = Vec::new();
    pages.push(DetailPage::Overview);
    pages.push(DetailPage::ScoreBreakdown);
    pages.push(DetailPage::Dependencies);
    match item {
        Some(it) => {
            if has_git_context(it) {
                pages.push(DetailPage::GitContext);
            }
            if has_pattern_data(it, data_flow) {
                pages.push(DetailPage::Patterns);
            }
            if has_data_flow_data(it, data_flow) {
                pages.push(DetailPage::DataFlow);
            }
        },
        None => {},
    }
    pages.push(DetailPage::Responsibilities);
    assert(pages@ =~= spec_available_pages(item_opt(item), *data_flow));
    pages
}

/// First position of `p` in `pages`, if present.
fn find_page(pages: &Vec<DetailPage>, p: DetailPage) -> (r: Option<usize>)
    ensures
        match r {
            Some(i) => i < pages.len() && pages@[i as int] == p && forall|j: int| 0 <= j < i ==> pages@[j] != p,
            None => !pages@.contains(p),
        },
{
    let mut i: usize = 0;
    while i < pages.len()
        invariant
            i <= pages.len(),
            forall|j: int| 0 <= j < i ==> pages@[j] != p,
        decreases pages.len() - i,
    {
        if pages[i] == p {
            return Some(i);
        }
        i = i + 1;
    }
    None
}

proof fn lemma_position(s: Seq<DetailPage>, p: DetailPage, i: int)
    requires
        0 <= i < s.len(),
        s[i] == p,
        forall|j: int| 0 <= j < i ==> s[j] != p,
    ensures
        position_or_first(s, p) == i,
{
    assert(s.contains(p));
    let k = choose|k: int| 0 <= k < s.len() && s[k] == p && forall|j: int| 0 <= j < k ==> s[j] != p;
    assert(k == i);
}

/// Check if a specific page is available for the item.
pub fn is_page_available(page: DetailPage, item: Option<&UnifiedDebtItem>, data_flow: &DataFlowGraph) -> (r: bool)
    ensures
        r == spec_available_pages(item_opt(item), *data_flow).contains(page),
{
    let pages = available_pages(item, data_flow);
    find_page(&pages, page).is_some()
}

/// Get the next available page, wrapping around.
pub fn next_available_page(current: DetailPage, item: Option<&UnifiedDebtItem>, data_flow: &DataFlowGraph) -> (r: DetailPage)
    ensures
        r == spec_next_available(spec_available_pages(item_opt(item), *data_flow), current),
{
    let available = available_pages(item, data_flow);
    let current_idx = match find_page(&available, current) {
        Some(i) => {
            proof {
                lemma_position(available@, current, i as int);
            }
            i
        },
        None => 0,
    };
    let next_idx = (current_idx + 1) % available.len();
    available[next_idx]
}

/// Get the previous available page, wrapping around.
pub fn prev_available_page(current: DetailPage, item: Option<&UnifiedDebtItem>, data_flow: &DataFlowGraph) -> (r: DetailPage)
    ensures
        r == spec_prev_available(spec_available_pages(item_opt(item), *data_flow), current),
{
    let available = available_pages(item, data_flow);
    let current_idx = match find_page(&available, current) {
        Some(i) => {
            proof {
                lemma_position(available@, current, i as int);
            }
            i
        },
        None => 0,
    };
    let prev_idx = if current_idx == 0 {
        available.len() - 1
    } else {
        current_idx - 1
    };
    available[prev_idx]
}

/// Ensure a page is valid for the current item: the page if available,
/// otherwise Overview.
pub fn ensure_valid_page(page: DetailPage, item: Option<&UnifiedDebtItem>, data_flow: &DataFlowGraph) -> (r: DetailPage)
    ensures
        r == if spec_available_pages(item_opt(item), *data_flow).contains(page) { page } else { DetailPage::Overview },
{
    if is_page_available(page, item, data_flow) {
        page
    } else {
        DetailPage::Overview
    }
}

/// Shape of an available-pages list: it starts with Overview and lists pages
/// in page order without repetition.
pub open spec fn ordered_pages(s: Seq<DetailPage>) -> bool {
    &&& s.len() > 0
    &&& s[0] == DetailPage::Overview
    &&& forall|a: int, b: int|
        0 <= a < b < s.len() ==> crate::detail_page::page_index(#[trigger] s[a]) < crate::detail_page::page_index(#[trigger] s[b])
}

proof fn lemma_available_ordered(item: Option<UnifiedDebtItem>, df: DataFlowGraph)
    ensures
        ordered_pages(spec_available_pages(item, df)),
{
    let s = spec_available_pages(item, df);
    let base = seq![DetailPage::Overview, DetailPage::ScoreBreakdown, DetailPage::Dependencies];
    let tail = seq![DetailPage::Responsibilities];
    let middle = match item {
        Some(it) => {
            let g = if spec_has_git_context(it) { seq![DetailPage::GitContext] } else { Seq::empty() };
            let p = if spec_has_pattern_data(it, df) { seq![DetailPage::Patterns] } else { Seq::empty() };
            let d = if spec_has_data_flow_data(it, df) { seq![DetailPage::DataFlow] } else { Seq::empty() };
            g + p + d
        },
        None => Seq::empty(),
    };
    assert(s == base + middle + tail);
    // Each part lists pages in increasing order, and parts follow each other.
    assert(forall|a: int, b: int|
        0 <= a < b < middle.len() ==> crate::detail_page::page_index(#[trigger] middle[a]) < crate::detail_page::page_index(#[trigger] middle[b]));
    assert(forall|a: int| 0 <= a < middle.len() ==> 3 <= crate::detail_page::page_index(#[trigger] middle[a]) <= 5);
    assert forall|a: int, b: int|
        0 <= a < b < s.len() implies crate::detail_page::page_index(#[trigger] s[a]) < crate::detail_page::page_index(#[trigger] s[b]) by {
        if a < 3 && b >= 3 && b < 3 + middle.len() {
            assert(s[b] == middle[b - 3]);
        }
        if a >= 3 && a < 3 + middle.len() && b < 3 + middle.len() {
            assert(s[a] == middle[a - 3]);
            assert(s[b] == middle[b - 3]);
        }
        if a >= 3 && a < 3 + middle.len() && b == 3 + middle.len() {
            assert(s[a] == middle[a - 3]);
        }
    }
}

proof fn lemma_ordered_positions(s: Seq<DetailPage>, current: DetailPage)
    requires
        ordered_pages(s),
    ensures
        0 <= position_or_first(s, current) < s.len(),
        s.contains(current) ==> s[position_or_first(s, current)] == current,
        forall|i: int| 0 <= i < s.len() ==> position_or_first(s, #[trigger] s[i]) == i,
{
    if s.contains(current) {
        let k = choose|k: int| 0 <= k < s.len() && s[k] == current;
        assert forall|j: int| 0 <= j < k implies s[j] != current by {
            assert(crate::detail_page::page_index(s[j]) < crate::detail_page::page_index(s[k]));
        }
        lemma_position(s, current, k);
    }
    assert forall|i: int| 0 <= i < s.len() implies position_or_first(s, #[trigger] s[i]) == i by {
        assert forall|j: int| 0 <= j < i implies s[j] != s[i] by {
            assert(crate::detail_page::page_index(s[j]) < crate::detail_page::page_index(s[i]));
        }
        lemma_position(s, s[i], i);
    }
}

/// Overview is always available, and the next and previous available pages
/// are always available themselves.
pub proof fn lemma_navigation_stays_available(item: Option<UnifiedDebtItem>, df: DataFlowGraph, current: DetailPage)
    ensures
        spec_available_pages(item, df).contains(DetailPage::Overview),
        spec_available_pages(item, df).contains(spec_next_available(spec_available_pages(item, df), current)),
        spec_available_pages(item, df).contains(spec_prev_available(spec_available_pages(item, df), current)),
{
    let s = spec_available_pages(item, df);
    lemma_available_ordered(item, df);
    lemma_ordered_positions(s, current);
    assert(s[0] == DetailPage::Overview);
    let i = position_or_first(s, current);
    let n = (i + 1) % (s.len() as int);
    assert(s[n] == spec_next_available(s, current));
    if i == 0 {
        assert(s[s.len() - 1] == spec_prev_available(s, current));
    } else {
        assert(s[i - 1] == spec_prev_available(s, current));
    }
}

/// On available pages, moving to the next available page and back (or back
/// and then forward) returns to the starting page.
pub proof fn lemma_next_prev_available_inverse(item: Option<UnifiedDebtItem>, df: DataFlowGraph, current: DetailPage)
    requires
        spec_available_pages(item, df).contains(current),
    ensures
        spec_prev_available(spec_available_pages(item, df), spec_next_available(spec_available_pages(item, df), current)) == current,
        spec_next_available(spec_available_pages(item, df), spec_prev_available(spec_available_pages(item, df), current)) == current,
{
    let s = spec_available_pages(item, df);
    lemma_available_ordered(item, df);
    lemma_ordered_positions(s, current);
    let i = position_or_first(s, current);
    assert(s[i] == current);
    let n = (i + 1) % (s.len() as int);
    let len = s.len() as int;
    if i + 1 < len {
        assert((i + 1) % len == i + 1) by (nonlinear_arith)
            requires
                0 <= i + 1 < len;
    } else {
        assert((i + 1) % len == 0) by (nonlinear_arith)
            requires
                i + 1 == len,
                len > 0;
    }
    let nx = spec_next_available(s, current);
    assert(nx == s[n]);
    assert(position_or_first(s, s[n]) == n);
    if n == 0 {
        assert(spec_prev_available(s, nx) == s[s.len() - 1]);
    } else {
        assert(spec_prev_available(s, nx) == s[n - 1]);
    }
    let q = if i == 0 { s.len() - 1 } else { i - 1 };
    let pv = spec_prev_available(s, current);
    assert(pv == s[q]);
    assert(position_or_first(s, s[q]) == q);
    let m = (q + 1) % (s.len() as int);
    if q + 1 < len {
        assert((q + 1) % len == q + 1) by (nonlinear_arith)
            requires
                0 <= q + 1 < len;
    } else {
        assert((q + 1) % len == 0) by (nonlinear_arith)
            requires
                q + 1 == len,
                len > 0;
    }
    assert(spec_next_available(s, pv) == s[m]);
}

} // verus!
