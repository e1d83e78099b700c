//! Navigation state machine: a transition table, pure guards, navigation
//! history for back navigation, and the navigation actions built on them.
use vstd::prelude::*;
use crate::detail_page::{DetailPage, spec_next, spec_prev};
use crate::view_mode::ViewMode;

verus! {

/// The table of allowed transitions between view modes.
pub open spec fn transition_table() -> Seq<(ViewMode, ViewMode)> {
    seq![
        (ViewMode::List, ViewMode::Detail),
        (ViewMode::List, ViewMode::Search),
        (ViewMode::List, ViewMode::SortMenu),
        (ViewMode::List, ViewMode::FilterMenu),
        (ViewMode::List, ViewMode::Help),
        (ViewMode::List, ViewMode::Dsm),
        (ViewMode::Detail, ViewMode::List),
        (ViewMode::Detail, ViewMode::Help),
        (ViewMode::Search, ViewMode::List),
        (ViewMode::Search, ViewMode::Detail),
        (ViewMode::SortMenu, ViewMode::List),
        (ViewMode::FilterMenu, ViewMode::List),
        (ViewMode::Help, ViewMode::List),
        (ViewMode::Help, ViewMode::Detail),
        (ViewMode::Help, ViewMode::Search),
        (ViewMode::Help, ViewMode::Dsm),
        (ViewMode::Dsm, ViewMode::List),
        (ViewMode::Dsm, ViewMode::Help),
    ]
}

/// The destinations of the transitions of `table` that start at `from`, in table order.
pub open spec fn destinations(table: Seq<(ViewMode, ViewMode)>, from: ViewMode) -> Seq<ViewMode>
    decreases table.len(),
{
    if table.len() == 0 {
        Seq::empty()
    } else {
        let prev = destinations(table.drop_last(), from);
        if table.last().0 == from {
            prev.push(table.last().1)
        } else {
            prev
        }
    }
}

/// The table of allowed transitions between view modes.
pub fn transitions() -> (r: Vec<(ViewMode, ViewMode)>)
    ensures
        r@ == transition_table(),
{
    let mut t = Vec::new();
    t.push((ViewMode::List, ViewMode::Detail));
    t.push((ViewMode::List, ViewMode::Search));
    t.push((ViewMode::List, ViewMode::SortMenu));
    t.push((ViewMode::List, ViewMode::FilterMenu));
    t.push((ViewMode::List, ViewMode::Help));
    t.push((ViewMode::List, ViewMode::Dsm));
    t.push((ViewMode::Detail, ViewMode::List));
    t.push((ViewMode::Detail, ViewMode::Help));
    t.push((ViewMode::Search, ViewMode::List));
    t.push((ViewMode::Search, ViewMode::Detail));
    t.push((ViewMode::SortMenu, ViewMode::List));
    t.push((ViewMode::FilterMenu, ViewMode::List));
    t.push((ViewMode::Help, ViewMode::List));
    t.push((ViewMode::Help, ViewMode::Detail));
    t.push((ViewMode::Help, ViewMode::Search));
    t.push((ViewMode::Help, ViewMode::Dsm));
    t.push((ViewMode::Dsm, ViewMode::List));
    t.push((ViewMode::Dsm, ViewMode::Help));
    assert(t@ =~= transition_table());
    t
}

/// Check if a transition is in the transition table.
pub fn is_valid_transition(from: ViewMode, to: ViewMode) -> (r: bool)
    ensures
        r == transition_table().contains((from, to)),
{
    let table = transitions();
    let mut i: usize = 0;
    while i < table.len()
        invariant
            i <= table.len(),
            table@ == transition_table(),
            forall|j: int| 0 <= j < i ==> table@[j] != (from, to),
        decreases table.len() - i,
    {
        let (f, t) = table[i];
        if f == from && t == to {
            assert(table@[i as int] == (from, to));
            return true;
        }
        i = i + 1;
    }
    false
}

/// Get all valid destinations from the current mode, in table order.
pub fn valid_destinations(from: ViewMode) -> (r: Vec<ViewMode>)
    ensures
        r@ == destinations(transition_table(), from),
        r@.no_duplicates(),
{
    proof {
        lemma_table_no_duplicates();
        lemma_destinations_no_duplicates(transition_table(), from);
    }
    let table = transitions();
    let mut r: Vec<ViewMode> = Vec::new();
    let mut i: usize = 0;
    while i < table.len()
        invariant
            i <= table.len(),
            table@ == transition_table(),
            r@ == destinations(table@.take(i as int), from),
        decreases table.len() - i,
    {
        proof {
            assert(table@.take(i + 1).drop_last() =~= table@.take(i as int));
        }
        let (f, t) = table[i];
        if f == from {
            r.push(t);
        }
        i = i + 1;
    }
    proof {
        assert(table@.take(table.len() as int) =~= table@);
    }
    r
}

/// Vertical and horizontal scroll position of the detail view.
#[derive(Debug, Clone, Copy, PartialEq, Eq, Structural)]
pub struct ScrollOffset {
    pub x: u16,
    pub y: u16,
}

/// Scroll state of the detail view's content.
///
/// Moving by a page moves by `page_height` rows, which the renderer sets to
/// the visible height; scrolling to the bottom moves to the last row, which
/// the renderer clamps to the content.
#[derive(Debug, Clone, Copy, PartialEq, Eq, Structural)]
pub struct DetailScroll {
    pub offset_x: u16,
    pub offset_y: u16,
    pub page_height: u16,
}

/// Scroll state at the top-left, with a page of one row.
pub open spec fn initial_scroll() -> DetailScroll {
    DetailScroll { offset_x: 0, offset_y: 0, page_height: 1 }
}

impl DetailScroll {
    /// Scroll state at the top-left, with a page of one row.
    pub fn new() -> (r: Self)
        ensures
            r == initial_scroll(),
    {
        DetailScroll { offset_x: 0, offset_y: 0, page_height: 1 }
    }

    /// Current offset.
    pub fn offset(&self) -> (r: ScrollOffset)
        ensures
            r.x == self.offset_x,
            r.y == self.offset_y,
    {
        ScrollOffset { x: self.offset_x, y: self.offset_y }
    }

    /// Scroll up one row (stops at the top).
    pub fn scroll_up(&mut self)
        ensures
            final(self).offset_y == if old(self).offset_y > 0 { old(self).offset_y - 1 } else { 0 },
            final(self).offset_x == old(self).offset_x,
            final(self).page_height == old(self).page_height,
    {
        self.offset_y = self.offset_y.saturating_sub(1);
    }

    /// Scroll down one row (stops at the largest offset).
    pub fn scroll_down(&mut self)
        ensures
            final(self).offset_y == if old(self).offset_y < u16::MAX { old(self).offset_y + 1 } else { u16::MAX as int },
            final(self).offset_x == old(self).offset_x,
            final(self).page_height == old(self).page_height,
    {
        self.offset_y = self.offset_y.saturating_add(1);
    }

    /// Scroll up one page (stops at the top).
    pub fn scroll_page_up(&mut self)
        ensures
            final(self).offset_y == if old(self).offset_y > old(self).page_height {
                old(self).offset_y - old(self).page_height
            } else {
                0
            },
            final(self).offset_x == old(self).offset_x,
            final(self).page_height == old(self).page_height,
    {
        self.offset_y = self.offset_y.saturating_sub(self.page_height);
    }

    /// Scroll down one page (stops at the largest offset).
    pub fn scroll_page_down(&mut self)
        ensures
            final(self).offset_y == if old(self).offset_y + old(self).page_height <= u16::MAX {
                old(self).offset_y + old(self).page_height
            } else {
                u16::MAX as int
            },
            final(self).offset_x == old(self).offset_x,
            final(self).page_height == old(self).page_height,
    {
        self.offset_y = self.offset_y.saturating_add(self.page_height);
    }

    /// Scroll to the top.
    pub fn scroll_to_top(&mut self)
        ensures
            final(self).offset_y == 0,
            final(self).offset_x == old(self).offset_x,
            final(self).page_height == old(self).page_height,
    {
        self.offset_y = 0;
    }

    /// Scroll to the bottom (the renderer clamps to the content).
    pub fn scroll_to_bottom(&mut self)
        ensures
            final(self).offset_y == u16::MAX,
            final(self).offset_x == old(self).offset_x,
            final(self).page_height == old(self).page_height,
    {
        self.offset_y = u16::MAX;
    }

    /// Set the page height used by page scrolling.
    pub fn set_page_height(&mut self, height: u16)
        ensures
            final(self).page_height == height,
            final(self).offset_x == old(self).offset_x,
            final(self).offset_y == old(self).offset_y,
    {
        self.page_height = height;
    }
}

/// Complete navigation state including history.
#[derive(Debug, Clone)]
pub struct NavigationState {
    /// Current view mode.
    pub view_mode: ViewMode,
    /// Current detail page (when in Detail mode).
    pub detail_page: DetailPage,
    /// Navigation history for back navigation.
    pub history: Vec<ViewMode>,
    /// Whether DSM feature is enabled.
    pub dsm_enabled: bool,
    /// DSM horizontal scroll offset.
    pub dsm_scroll_x: usize,
    /// DSM vertical scroll offset.
    pub dsm_scroll_y: usize,
    /// Scroll state of the detail view.
    pub detail_scroll: DetailScroll,
}

impl NavigationState {
    /// Create new navigation state.
    pub fn new(dsm_enabled: bool) -> (r: Self)
        ensures
            r.view_mode == ViewMode::List,
            r.detail_page == DetailPage::Overview,
            r.history@ == Seq::<ViewMode>::empty(),
            r.dsm_enabled == dsm_enabled,
            r.dsm_scroll_x == 0,
            r.dsm_scroll_y == 0,
            r.detail_scroll == initial_scroll(),
    {
        NavigationState {
            view_mode: ViewMode::List,
            detail_page: DetailPage::Overview,
            history: Vec::new(),
            dsm_enabled,
            dsm_scroll_x: 0,
            dsm_scroll_y: 0,
            detail_scroll: DetailScroll::new(),
        }
    }

    /// Push current view mode to history before transitioning.
    pub fn push_and_set_view(&mut self, new_mode: ViewMode)
        ensures
            final(self).history@ == old(self).history@.push(old(self).view_mode),
            final(self).view_mode == new_mode,
            final(self).detail_page == old(self).detail_page,
            final(self).dsm_enabled == old(self).dsm_enabled,
            final(self).dsm_scroll_x == old(self).dsm_scroll_x,
            final(self).dsm_scroll_y == old(self).dsm_scroll_y,
            final(self).detail_scroll == old(self).detail_scroll,
    {
        let current = self.view_mode;
        self.history.push(current);
        self.view_mode = new_mode;
    }

    /// Go back to previous view mode: pops the history and, when there was
    /// an entry, makes it the current view mode.
    pub fn go_back(&mut self) -> (r: Option<ViewMode>)
        ensures
            old(self).history@.len() == 0 ==> r is None && final(self).history@ == old(self).history@
                && final(self).view_mode == old(self).view_mode,
            old(self).history@.len() > 0 ==> r == Some(old(self).history@.last())
                && final(self).history@ == old(self).history@.drop_last()
                && final(self).view_mode == old(self).history@.last(),
            final(self).detail_page == old(self).detail_page,
            final(self).dsm_enabled == old(self).dsm_enabled,
            final(self).dsm_scroll_x == old(self).dsm_scroll_x,
            final(self).dsm_scroll_y == old(self).dsm_scroll_y,
            final(self).detail_scroll == old(self).detail_scroll,
    {
        let r = self.history.pop();
        match r {
            Some(mode) => {
                self.view_mode = mode;
            },
            None => {},
        }
        r
    }

    /// Clear navigation history.
    pub fn clear_history(&mut self)
        ensures
            final(self).history@ == Seq::<ViewMode>::empty(),
            final(self).view_mode == old(self).view_mode,
            final(self).detail_page == old(self).detail_page,
            final(self).dsm_enabled == old(self).dsm_enabled,
            final(self).dsm_scroll_x == old(self).dsm_scroll_x,
            final(self).dsm_scroll_y == old(self).dsm_scroll_y,
            final(self).detail_scroll == old(self).detail_scroll,
    {
        self.history.clear();
    }

    /// Reset DSM scroll position.
    pub fn reset_dsm_scroll(&mut self)
        ensures
            final(self).dsm_scroll_x == 0,
            final(self).dsm_scroll_y == 0,
            final(self).history@ == old(self).history@,
            final(self).view_mode == old(self).view_mode,
            final(self).detail_page == old(self).detail_page,
            final(self).dsm_enabled == old(self).dsm_enabled,
            final(self).detail_scroll == old(self).detail_scroll,
    {
        self.dsm_scroll_x = 0;
        self.dsm_scroll_y = 0;
    }

    /// Reset the detail view's scroll position.
    pub fn reset_detail_scroll(&mut self)
        ensures
            final(self).detail_scroll == initial_scroll(),
            final(self).history@ == old(self).history@,
            final(self).view_mode == old(self).view_mode,
            final(self).detail_page == old(self).detail_page,
            final(self).dsm_enabled == old(self).dsm_enabled,
            final(self).dsm_scroll_x == old(self).dsm_scroll_x,
            final(self).dsm_scroll_y == old(self).dsm_scroll_y,
    {
        self.detail_scroll = DetailScroll::new();
    }
}

// ============================================================================
// Pure guards
// ============================================================================

/// Guard: Detail view needs the List or Search view, items and a selection.
pub open spec fn spec_can_enter_detail(m: ViewMode, has_items: bool, has_selection: bool) -> bool {
    (m == ViewMode::List || m == ViewMode::Search) && has_items && has_selection
}

/// Guard: can enter Detail view?
pub fn can_enter_detail(current_mode: ViewMode, has_items: bool, has_selection: bool) -> (r: bool)
    ensures
        r == spec_can_enter_detail(current_mode, has_items, has_selection),
{
    (current_mode == ViewMode::List || current_mode == ViewMode::Search) && has_items && has_selection
}

/// Guard: can enter DSM view? Only from List, with the feature enabled.
pub fn can_enter_dsm(current_mode: ViewMode, dsm_enabled: bool) -> (r: bool)
    ensures
        r == (current_mode == ViewMode::List && dsm_enabled),
{
    current_mode == ViewMode::List && dsm_enabled
}

/// Guard: can enter Search? Only from List view.
pub fn can_enter_search(current_mode: ViewMode) -> (r: bool)
    ensures
        r == (current_mode == ViewMode::List),
{
    current_mode == ViewMode::List
}

/// Guard: can enter SortMenu? Only from List view.
pub fn can_enter_sort_menu(current_mode: ViewMode) -> (r: bool)
    ensures
        r == (current_mode == ViewMode::List),
{
    current_mode == ViewMode::List
}

/// Guard: can enter FilterMenu? Only from List view.
pub fn can_enter_filter_menu(current_mode: ViewMode) -> (r: bool)
    ensures
        r == (current_mode == ViewMode::List),
{
    current_mode == ViewMode::List
}

/// Guard: can enter Help? From every view but Help itself.
pub fn can_enter_help(current_mode: ViewMode) -> (r: bool)
    ensures
        r == (current_mode != ViewMode::Help),
{
    current_mode != ViewMode::Help
}

/// Guard: can go back? With history, or when not in List view.
pub fn can_go_back(current_mode: ViewMode, history_len: usize) -> (r: bool)
    ensures
        r == (history_len > 0 || current_mode != ViewMode::List),
{
    history_len > 0 || current_mode != ViewMode::List
}

/// Guard: can navigate detail pages? Only in Detail view.
pub fn can_navigate_detail_pages(current_mode: ViewMode) -> (r: bool)
    ensures
        r == (current_mode == ViewMode::Detail),
{
    current_mode == ViewMode::Detail
}

// ============================================================================
// Navigation result
// ============================================================================

/// Result of attempting a navigation action.
#[derive(Debug, Clone, PartialEq, Eq)]
pub enum NavigationResult {
    /// Navigation succeeded.
    Success,
    /// Navigation failed - guard rejected.
    Blocked { reason: &'static str },
    /// Navigation invalid - not in transition table.
    Invalid { from: ViewMode, to: ViewMode },
}

impl NavigationResult {
    /// Returns true if navigation succeeded.
    pub fn is_success(&self) -> (r: bool)
        ensures
            r == (*self is Success),
    {
        match self {
            NavigationResult::Success => true,
            _ => false,
        }
    }
}

// ============================================================================
// Navigation actions
// ============================================================================

/// The state after a successful move from the current view to `to`: the
/// current view is pushed onto the history and `to` becomes current.
pub open spec fn pushed(old_state: NavigationState, new_state: NavigationState, to: ViewMode) -> bool {
    &&& new_state.history@ == old_state.history@.push(old_state.view_mode)
    &&& new_state.view_mode == to
    &&& new_state.dsm_enabled == old_state.dsm_enabled
    &&& new_state.dsm_scroll_x == old_state.dsm_scroll_x
    &&& new_state.dsm_scroll_y == old_state.dsm_scroll_y
    &&& new_state.detail_scroll == old_state.detail_scroll
}

/// The state is unchanged.
pub open spec fn unchanged(old_state: NavigationState, new_state: NavigationState) -> bool {
    &&& new_state.history@ == old_state.history@
    &&& new_state.view_mode == old_state.view_mode
    &&& new_state.detail_page == old_state.detail_page
    &&& new_state.dsm_enabled == old_state.dsm_enabled
    &&& new_state.dsm_scroll_x == old_state.dsm_scroll_x
    &&& new_state.dsm_scroll_y == old_state.dsm_scroll_y
    &&& new_state.detail_scroll == old_state.detail_scroll
}

/// Outcome of a guarded move to `to`: invalid when the table lacks the
/// transition, blocked with `reason` when the guard fails, otherwise a push.
pub open spec fn guarded_move(
    old_state: NavigationState,
    new_state: NavigationState,
    r: NavigationResult,
    to: ViewMode,
    guard: bool,
    reason: &'static str,
) -> bool {
    if !transition_table().contains((old_state.view_mode, to)) {
        r == NavigationResult::Invalid { from: old_state.view_mode, to } && unchanged(old_state, new_state)
    } else if !guard {
        r == NavigationResult::Blocked { reason } && unchanged(old_state, new_state)
    } else {
        r is Success && pushed(old_state, new_state, to)
    }
}

/// Navigate to Detail view (on success the Overview page is shown).
pub fn navigate_to_detail(state: &mut NavigationState, has_items: bool, has_selection: bool) -> (r: NavigationResult)
    ensures
        guarded_move(*old(state), *final(state), r, ViewMode::Detail, spec_can_enter_detail(old(state).view_mode, has_items, has_selection), "No item selected"),
        r is Success ==> final(state).detail_page == DetailPage::Overview,
{
    if !is_valid_transition(state.view_mode, ViewMode::Detail) {
        return NavigationResult::Invalid { from: state.view_mode, to: ViewMode::Detail };
    }
    if !can_enter_detail(state.view_mode, has_items, has_selection) {
        return NavigationResult::Blocked { reason: "No item selected" };
    }
    let current = state.view_mode;
    state.history.push(current);
    state.view_mode = ViewMode::Detail;
    state.detail_page = DetailPage::Overview;
    NavigationResult::Success
}

/// Navigate to Search view.
pub fn navigate_to_search(state: &mut NavigationState) -> (r: NavigationResult)
    ensures
        guarded_move(*old(state), *final(state), r, ViewMode::Search, old(state).view_mode == ViewMode::List, "Search only available from List view"),
        final(state).detail_page == old(state).detail_page,
{
    if !is_valid_transition(state.view_mode, ViewMode::Search) {
        return NavigationResult::Invalid { from: state.view_mode, to: ViewMode::Search };
    }
    if !can_enter_search(state.view_mode) {
        return NavigationResult::Blocked { reason: "Search only available from List view" };
    }
    let current = state.view_mode;
    state.history.push(current);
    state.view_mode = ViewMode::Search;
    NavigationResult::Success
}

/// Navigate to SortMenu view.
pub fn navigate_to_sort_menu(state: &mut NavigationState) -> (r: NavigationResult)
    ensures
        guarded_move(*old(state), *final(state), r, ViewMode::SortMenu, old(state).view_mode == ViewMode::List, "Sort menu only available from List view"),
        final(state).detail_page == old(state).detail_page,
{
    if !is_valid_transition(state.view_mode, ViewMode::SortMenu) {
        return NavigationResult::Invalid { from: state.view_mode, to: ViewMode::SortMenu };
    }
    if !can_enter_sort_menu(state.view_mode) {
        return NavigationResult::Blocked { reason: "Sort menu only available from List view" };
    }
    let current = state.view_mode;
    state.history.push(current);
    state.view_mode = ViewMode::SortMenu;
    NavigationResult::Success
}

/// Navigate to FilterMenu view.
pub fn navigate_to_filter_menu(state: &mut NavigationState) -> (r: NavigationResult)
    ensures
        guarded_move(*old(state), *final(state), r, ViewMode::FilterMenu, old(state).view_mode == ViewMode::List, "Filter menu only available from List view"),
        final(state).detail_page == old(state).detail_page,
{
    if !is_valid_transition(state.view_mode, ViewMode::FilterMenu) {
        return NavigationResult::Invalid { from: state.view_mode, to: ViewMode::FilterMenu };
    }
    if !can_enter_filter_menu(state.view_mode) {
        return NavigationResult::Blocked { reason: "Filter menu only available from List view" };
    }
    let current = state.view_mode;
    state.history.push(current);
    state.view_mode = ViewMode::FilterMenu;
    NavigationResult::Success
}

/// Navigate to DSM view.
pub fn navigate_to_dsm(state: &mut NavigationState) -> (r: NavigationResult)
    ensures
        guarded_move(
            *old(state),
            *final(state),
            r,
            ViewMode::Dsm,
            old(state).view_mode == ViewMode::List && old(state).dsm_enabled,
            "DSM feature not enabled",
        ),
        final(state).detail_page == old(state).detail_page,
{
    if !is_valid_transition(state.view_mode, ViewMode::Dsm) {
        return NavigationResult::Invalid { from: state.view_mode, to: ViewMode::Dsm };
    }
    if !can_enter_dsm(state.view_mode, state.dsm_enabled) {
        return NavigationResult::Blocked { reason: "DSM feature not enabled" };
    }
    let current = state.view_mode;
    state.history.push(current);
    state.view_mode = ViewMode::Dsm;
    NavigationResult::Success
}

/// Navigate to Help view: blocked from Help itself, invalid where the
/// transition table has no move to Help.
pub fn navigate_to_help(state: &mut NavigationState) -> (r: NavigationResult)
    ensures
        old(state).view_mode == ViewMode::Help ==> r == (NavigationResult::Blocked { reason: "Already in Help view" })
            && unchanged(*old(state), *final(state)),
        old(state).view_mode != ViewMode::Help && !transition_table().contains((old(state).view_mode, ViewMode::Help))
            ==> r == (NavigationResult::Invalid { from: old(state).view_mode, to: ViewMode::Help }) && unchanged(
            *old(state),
            *final(state),
        ),
        old(state).view_mode != ViewMode::Help && transition_table().contains((old(state).view_mode, ViewMode::Help))
            ==> r is Success && pushed(*old(state), *final(state), ViewMode::Help),
        final(state).detail_page == old(state).detail_page,
{
    if !can_enter_help(state.view_mode) {
        return NavigationResult::Blocked { reason: "Already in Help view" };
    }
    if !is_valid_transition(state.view_mode, ViewMode::Help) {
        return NavigationResult::Invalid { from: state.view_mode, to: ViewMode::Help };
    }
    let current = state.view_mode;
    state.history.push(current);
    state.view_mode = ViewMode::Help;
    NavigationResult::Success
}

/// Navigate back (escape): to the last view of the history; without history,
/// to List; already at List without history, blocked.
pub fn navigate_back(state: &mut NavigationState) -> (r: NavigationResult)
    ensures
        old(state).history@.len() > 0 ==> r is Success
            && final(state).history@ == old(state).history@.drop_last()
            && final(state).view_mode == old(state).history@.last(),
        old(state).history@.len() == 0 && old(state).view_mode != ViewMode::List ==> r is Success
            && final(state).history@ == old(state).history@
            && final(state).view_mode == ViewMode::List,
        old(state).history@.len() == 0 && old(state).view_mode == ViewMode::List ==> r
            == (NavigationResult::Blocked { reason: "Already at root view" }) && unchanged(*old(state), *final(state)),
        final(state).detail_page == old(state).detail_page,
        final(state).dsm_enabled == old(state).dsm_enabled,
        final(state).dsm_scroll_x == old(state).dsm_scroll_x,
        final(state).dsm_scroll_y == old(state).dsm_scroll_y,
        final(state).detail_scroll == old(state).detail_scroll,
{
    match state.history.pop() {
        Some(previous) => {
            state.view_mode = previous;
            NavigationResult::Success
        },
        None => {
            if state.view_mode != ViewMode::List {
                state.view_mode = ViewMode::List;
                NavigationResult::Success
            } else {
                NavigationResult::Blocked { reason: "Already at root view" }
            }
        },
    }
}

/// The page after `p` when the navigation state steps forward: the page
/// sequence's next page, except that Overview steps on to Dependencies.
pub open spec fn step_next(p: DetailPage) -> DetailPage {
    if p == DetailPage::Overview {
        DetailPage::Dependencies
    } else {
        spec_next(p)
    }
}

/// The page before `p` when the navigation state steps back: the page
/// sequence's previous page, except that Dependencies steps back to Overview.
pub open spec fn step_prev(p: DetailPage) -> DetailPage {
    if p == DetailPage::Dependencies {
        DetailPage::Overview
    } else {
        spec_prev(p)
    }
}

/// The page one step forward or back.
fn step_page(p: DetailPage, forward: bool) -> (r: DetailPage)
    ensures
        r == (if forward { step_next(p) } else { step_prev(p) }),
{
    if forward {
        if p == DetailPage::Overview {
            DetailPage::Dependencies
        } else {
            p.next()
        }
    } else {
        if p == DetailPage::Dependencies {
            DetailPage::Overview
        } else {
            p.prev()
        }
    }
}

/// `b` is `a` after a detail page step: in the Detail view the page moves
/// one forward or back with view and history kept; elsewhere nothing changes.
pub open spec fn page_step(a: NavigationState, b: NavigationState, forward: bool) -> bool {
    if a.view_mode == ViewMode::Detail {
        &&& b.detail_page == (if forward { step_next(a.detail_page) } else { step_prev(a.detail_page) })
        &&& b.history@ == a.history@
        &&& b.view_mode == a.view_mode
    } else {
        unchanged(a, b)
    }
}

/// Navigate detail pages (forward or backward, wrapping); only in Detail view.
pub fn navigate_detail_page(state: &mut NavigationState, forward: bool) -> (r: NavigationResult)
    ensures
        old(state).view_mode != ViewMode::Detail ==> r == (NavigationResult::Blocked { reason: "Not in Detail view" })
            && unchanged(*old(state), *final(state)),
        old(state).view_mode == ViewMode::Detail ==> r is Success
            && final(state).detail_page == (if forward { step_next(old(state).detail_page) } else { step_prev(old(state).detail_page) })
            && final(state).history@ == old(state).history@
            && final(state).view_mode == old(state).view_mode,
        final(state).dsm_enabled == old(state).dsm_enabled,
        final(state).dsm_scroll_x == old(state).dsm_scroll_x,
        final(state).dsm_scroll_y == old(state).dsm_scroll_y,
        final(state).detail_scroll == old(state).detail_scroll,
        page_step(*old(state), *final(state), forward),
{
    if !can_navigate_detail_pages(state.view_mode) {
        return NavigationResult::Blocked { reason: "Not in Detail view" };
    }
    state.detail_page = step_page(state.detail_page, forward);
    NavigationResult::Success
}

/// The (key, description) pairs of the actions available in a state.
pub open spec fn actions_for(
    m: ViewMode,
    dsm_enabled: bool,
    history_len: nat,
    has_items: bool,
    has_selection: bool,
) -> Seq<(Seq<char>, Seq<char>)> {
    let s0 = Seq::<(Seq<char>, Seq<char>)>::empty();
    let s1 = if spec_can_enter_detail(m, has_items, has_selection) { s0.push(("Enter"@, "View details"@)) } else { s0 };
    let s2 = if m == ViewMode::List { s1.push(("/"@, "Search"@)) } else { s1 };
    let s3 = if m == ViewMode::List { s2.push(("s"@, "Sort"@)) } else { s2 };
    let s4 = if m == ViewMode::List { s3.push(("f"@, "Filter"@)) } else { s3 };
    let s5 = if m == ViewMode::List && dsm_enabled { s4.push(("m"@, "DSM view"@)) } else { s4 };
    let s6 = if m != ViewMode::Help { s5.push(("?"@, "Help"@)) } else { s5 };
    let s7 = if history_len > 0 || m != ViewMode::List { s6.push(("Esc"@, "Back"@)) } else { s6 };
    s7.push(("q"@, "Quit"@))
}

/// Views of a list of (key, description) pairs.
pub open spec fn pair_views(v: Seq<(&'static str, &'static str)>) -> Seq<(Seq<char>, Seq<char>)> {
    v.map_values(|p: (&'static str, &'static str)| (p.0@, p.1@))
}

/// Get available actions for current state (for status bar display).
pub fn available_actions(state: &NavigationState, has_items: bool, has_selection: bool) -> (r: Vec<(&'static str, &'static str)>)
    ensures
        pair_views(r@) == actions_for(
            state.view_mode,
            state.dsm_enabled,
            state.history@.len(),
            has_items,
            has_selection,
        ),
{
    proof {
        reveal_strlit("Enter");
        reveal_strlit("View details");
        reveal_strlit("/");
        reveal_strlit("Search");
        reveal_strlit("s");
        reveal_strlit("Sort");
        reveal_strlit("f");
        reveal_strlit("Filter");
        reveal_strlit("m");
        reveal_strlit("DSM view");
        reveal_strlit("?");
        reveal_strlit("Help");
        reveal_strlit("Esc");
        reveal_strlit("Back");
        reveal_strlit("q");
        reveal_strlit("Quit");
    }
    let m = state.view_mode;
    let mut actions: Vec<(&'static str, &'static str)> = Vec::new();
    let ghost s0 = Seq::<(Seq<char>, Seq<char>)>::empty();
    if can_enter_detail(m, has_items, has_selection) {
        actions.push(("Enter", "View details"));
    }
    if can_enter_search(m) {
        actions.push(("/", "Search"));
    }
    if can_enter_sort_menu(m) {
        actions.push(("s", "Sort"));
    }
    if can_enter_filter_menu(m) {
        actions.push(("f", "Filter"));
    }
    if can_enter_dsm(m, state.dsm_enabled) {
        actions.push(("m", "DSM view"));
    }
    if can_enter_help(m) {
        actions.push(("?", "Help"));
    }
    if can_go_back(m, state.history.len()) {
        actions.push(("Esc", "Back"));
    }
    actions.push(("q", "Quit"));
    assert(pair_views(actions@) =~= actions_for(
        state.view_mode,
        state.dsm_enabled,
        state.history@.len(),
        has_items,
        has_selection,
    ));
    actions
}

// ============================================================================
// Laws
// ============================================================================

/// Every destination listed for a mode is a valid transition from it.
pub proof fn lemma_destinations_are_transitions(from: ViewMode, to: ViewMode)
    ensures
        destinations(transition_table(), from).contains(to) <==> transition_table().contains((from, to)),
{
    lemma_destinations_contains(transition_table(), from, to);
}

/// No transition occurs twice in the table.
proof fn lemma_table_no_duplicates()
    ensures
        transition_table().no_duplicates(),
{
    let t = transition_table();
    assert forall|i: int, j: int| 0 <= i < t.len() && 0 <= j < t.len() && i != j implies t[i] != t[j] by {
        assert(t.len() == 18);
    }
}

/// A table without repeated transitions gives each destination once.
proof fn lemma_destinations_no_duplicates(table: Seq<(ViewMode, ViewMode)>, from: ViewMode)
    requires
        table.no_duplicates(),
    ensures
        destinations(table, from).no_duplicates(),
    decreases table.len(),
{
    if table.len() > 0 {
        let h = table.drop_last();
        assert(h.no_duplicates()) by {
            assert forall|i: int, j: int| 0 <= i < h.len() && 0 <= j < h.len() && i != j implies h[i] != h[j] by {
                assert(h[i] == table[i] && h[j] == table[j]);
            }
        }
        lemma_destinations_no_duplicates(h, from);
        if table.last().0 == from {
            let d = destinations(h, from);
            lemma_destinations_contains(h, from, table.last().1);
            if h.contains((from, table.last().1)) {
                let i = choose|i: int| 0 <= i < h.len() && h[i] == (from, table.last().1);
                assert(table[i] == table[table.len() - 1]);
            }
            assert(!d.contains(table.last().1));
            let e = d.push(table.last().1);
            assert forall|i: int, j: int| 0 <= i < e.len() && 0 <= j < e.len() && i != j implies e[i] != e[j] by {
                if i == d.len() {
                    assert(d[j] == e[j]);
                } else if j == d.len() {
                    assert(d[i] == e[i]);
                }
            }
        }
    }
}

proof fn lemma_destinations_contains(table: Seq<(ViewMode, ViewMode)>, from: ViewMode, to: ViewMode)
    ensures
        destinations(table, from).contains(to) <==> table.contains((from, to)),
    decreases table.len(),
{
    if table.len() > 0 {
        let h = table.drop_last();
        lemma_destinations_contains(h, from, to);
        let d = destinations(h, from);
        if table.contains((from, to)) {
            let i = choose|i: int| 0 <= i < table.len() && table[i] == (from, to);
            if i < h.len() {
                assert(h[i] == (from, to));
                let k = choose|k: int| 0 <= k < d.len() && d[k] == to;
                if table.last().0 == from {
                    assert(d.push(table.last().1)[k] == to);
                }
            } else {
                assert(table.last() == (from, to));
                assert(destinations(table, from) == d.push(to));
                assert(d.push(to)[d.len() as int] == to);
            }
        }
        if destinations(table, from).contains(to) {
            let k = choose|k: int| 0 <= k < destinations(table, from).len() && destinations(table, from)[k] == to;
            if table.last().0 == from && k == d.len() {
                assert(table[table.len() - 1] == (from, to));
            } else {
                assert(d[k] == to);
                let i = choose|i: int| 0 <= i < h.len() && h[i] == (from, to);
                assert(table[i] == (from, to));
            }
        }
    }
}

/// Pushing a view and going back restores the view and the history (the
/// history is last in, first out).
pub proof fn lemma_history_lifo(s: NavigationState, mode: ViewMode, pushed_state: NavigationState, back: NavigationState)
    requires
        pushed(s, pushed_state, mode),
        pushed_state.history@.len() > 0,
        back.history@ == pushed_state.history@.drop_last(),
        back.view_mode == pushed_state.history@.last(),
    ensures
        back.view_mode == s.view_mode,
        back.history@ == s.history@,
{
    assert(pushed_state.history@.drop_last() =~= s.history@);
}


/// History and view after moving to each of `modes` in turn, each move
/// pushing the current view (as `push_and_set_view` does).
pub open spec fn after_pushes(history: Seq<ViewMode>, view: ViewMode, modes: Seq<ViewMode>) -> (Seq<ViewMode>, ViewMode)
    decreases modes.len(),
{
    if modes.len() == 0 {
        (history, view)
    } else {
        let prev = after_pushes(history, view, modes.drop_last());
        (prev.0.push(prev.1), modes.last())
    }
}

/// History and view after going back `n` times (as `go_back` does: an empty
/// history leaves the view).
pub open spec fn after_backs(history: Seq<ViewMode>, view: ViewMode, n: nat) -> (Seq<ViewMode>, ViewMode)
    decreases n,
{
    if n == 0 || history.len() == 0 {
        (history, view)
    } else {
        after_backs(history.drop_last(), history.last(), (n - 1) as nat)
    }
}

/// The history is last in, first out: after moving through `modes`, going
/// back `j` times shows the `j`-th latest mode, and going back once per move
/// restores the starting view and history.
pub proof fn lemma_history_lifo_sequence(history: Seq<ViewMode>, view: ViewMode, modes: Seq<ViewMode>, j: nat)
    requires
        j <= modes.len(),
    ensures
        after_pushes(history, view, modes).0.len() == history.len() + modes.len(),
        j < modes.len() ==> after_backs(after_pushes(history, view, modes).0, after_pushes(history, view, modes).1, j).1
            == modes[modes.len() - 1 - j],
        j == modes.len() ==> after_backs(after_pushes(history, view, modes).0, after_pushes(history, view, modes).1, j) == (
        history,
        view,
        ),
    decreases modes.len(),
{
    if modes.len() > 0 {
        let prev = after_pushes(history, view, modes.drop_last());
        lemma_history_lifo_sequence(history, view, modes.drop_last(), 0);
        assert(prev.0.push(prev.1).drop_last() =~= prev.0);
        if j > 0 {
            lemma_history_lifo_sequence(history, view, modes.drop_last(), (j - 1) as nat);
        }
    }
}

/// Page after `n` steps forward from `p`.
pub open spec fn pages_forward(p: DetailPage, n: nat) -> DetailPage
    decreases n,
{
    if n == 0 {
        p
    } else {
        step_next(pages_forward(p, (n - 1) as nat))
    }
}

/// Page after `n` steps backward from `p`.
pub open spec fn pages_backward(p: DetailPage, n: nat) -> DetailPage
    decreases n,
{
    if n == 0 {
        p
    } else {
        pages_backward(step_prev(p), (n - 1) as nat)
    }
}

/// Detail page navigation is cyclic: from a page of the cycle that stepping
/// walks (Overview, Dependencies, Git Context, Patterns, Data Flow,
/// Responsibilities), `n` steps forward and then `n` steps back return to the
/// starting page.
pub proof fn lemma_detail_pages_round_trip(p: DetailPage, n: nat)
    requires
        p != DetailPage::Context,
        p != DetailPage::ScoreBreakdown,
    ensures
        pages_backward(pages_forward(p, n), n) == p,
    decreases n,
{
    if n > 0 {
        let q = pages_forward(p, (n - 1) as nat);
        lemma_forward_stays_in_cycle(p, (n - 1) as nat);
        assert(step_prev(step_next(q)) == q);
        lemma_detail_pages_round_trip(p, (n - 1) as nat);
    }
}

/// Stepping forward from a page of the cycle never reaches Score Breakdown
/// or Context.
proof fn lemma_forward_stays_in_cycle(p: DetailPage, n: nat)
    requires
        p != DetailPage::Context,
        p != DetailPage::ScoreBreakdown,
    ensures
        pages_forward(p, n) != DetailPage::Context,
        pages_forward(p, n) != DetailPage::ScoreBreakdown,
    decreases n,
{
    if n > 0 {
        lemma_forward_stays_in_cycle(p, (n - 1) as nat);
    }
}

proof fn lemma_backward_step(q: DetailPage, j: nat)
    ensures
        pages_backward(q, j + 1) == step_prev(pages_backward(q, j)),
    decreases j,
{
    assert(pages_backward(q, j + 1) == pages_backward(step_prev(q), j));
    if j > 0 {
        lemma_backward_step(step_prev(q), (j - 1) as nat);
        assert(pages_backward(q, j) == pages_backward(step_prev(q), (j - 1) as nat));
    }
}

/// The states that `k` forward steps pass through from the Detail view hold
/// the pages `k` steps ahead, in the same view and history.
proof fn lemma_forward_states(states: Seq<NavigationState>, k: nat)
    requires
        k < states.len(),
        states[0].view_mode == ViewMode::Detail,
        forall|i: int| 0 <= i < k ==> page_step(#[trigger] states[i], states[i + 1], true),
    ensures
        states[k as int].detail_page == pages_forward(states[0].detail_page, k),
        states[k as int].view_mode == ViewMode::Detail,
        states[k as int].history@ == states[0].history@,
    decreases k,
{
    if k > 0 {
        lemma_forward_states(states, (k - 1) as nat);
        assert(page_step(states[k - 1], states[k as int], true));
    }
}

/// The states that `j` backward steps pass through, starting `n` steps in.
proof fn lemma_backward_states(states: Seq<NavigationState>, n: nat, j: nat)
    requires
        n + j < states.len(),
        states[n as int].view_mode == ViewMode::Detail,
        forall|i: int| n <= i < n + j ==> page_step(#[trigger] states[i], states[i + 1], false),
    ensures
        states[(n + j) as int].detail_page == pages_backward(states[n as int].detail_page, j),
        states[(n + j) as int].view_mode == ViewMode::Detail,
        states[(n + j) as int].history@ == states[n as int].history@,
    decreases j,
{
    if j > 0 {
        lemma_backward_states(states, n, (j - 1) as nat);
        assert(page_step(states[(n + j - 1) as int], states[(n + j) as int], false));
        lemma_backward_step(states[n as int].detail_page, (j - 1) as nat);
    }
}

/// Calling `navigate_detail_page` `n` times forward and then `n` times back,
/// from a page of the cycle that stepping walks in the Detail view, returns
/// to the starting page with view and history unchanged; `states` are the
/// states the calls pass through.
pub proof fn lemma_detail_page_calls_round_trip(states: Seq<NavigationState>, n: nat)
    requires
        states.len() == 2 * n + 1,
        states[0].view_mode == ViewMode::Detail,
        states[0].detail_page != DetailPage::Context,
        states[0].detail_page != DetailPage::ScoreBreakdown,
        forall|i: int| 0 <= i < n ==> page_step(#[trigger] states[i], states[i + 1], true),
        forall|i: int| n <= i < 2 * n ==> page_step(#[trigger] states[i], states[i + 1], false),
    ensures
        states[(2 * n) as int].detail_page == states[0].detail_page,
        states[(2 * n) as int].view_mode == states[0].view_mode,
        states[(2 * n) as int].history@ == states[0].history@,
{
    lemma_forward_states(states, n);
    lemma_backward_states(states, n, n);
    lemma_detail_pages_round_trip(states[0].detail_page, n);
}

} // verus!
