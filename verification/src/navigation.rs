//! Keyboard handling: which state change each key makes in each view.
//!
//! Opening the editor, work outside the library, is recorded as a pending
//! `Effect` on the application state for the caller to perform.
use vstd::prelude::*;
use crate::actions::{copy_recorded, extract_page_text, page_text};
use crate::context::{context_clipboard_text, format_context_for_clipboard, format_primary_for_clipboard, primary_clipboard_text};
use crate::text_extraction::format_path_text;
use crate::detail_actions::{DetailAction, DetailActionContext, classify_detail_key, detail_action_for};
use crate::detail_page::DetailPage;
use crate::filter::{CoverageFilter, Filter, SeverityFilter, filter_matches, lemma_filter_meaning};
use crate::item::UnifiedDebtItem;
use crate::keys::{KeyCode, KeyEvent, KeyModifiers};
use crate::list_actions::{ListAction, ListActionContext, determine_list_action, list_action_for};
use crate::list_state::clamped;
use crate::nav_state::{NavigationState, can_enter_help, initial_scroll};
use crate::page_availability::{
    ensure_valid_page as valid_page_for, is_page_available, next_available_page, prev_available_page,
    spec_available_pages, spec_next_available, spec_prev_available,
};
use crate::query_state::query_results;
use crate::search::{on_boundary, removed_at, typed};
use crate::wrapping::byte_len;
use crate::results_app::{Effect, ResultsApp};
use crate::sort::{SortCriteria, criteria_name, sorted_indices};
use crate::view_mode::ViewMode;

verus! {

/// Rows of the list visible at a terminal height (header and footer take
/// three rows each).
pub open spec fn visible_rows(height: u16) -> int {
    if height > 6 {
        height - 6
    } else {
        0
    }
}

/// Selection after moving by `delta` in a list of `count` entries, kept
/// within the list.
pub open spec fn move_target(current: int, delta: int, count: int) -> int {
    let t = current + delta;
    if t < 0 {
        0
    } else if t > count - 1 {
        count - 1
    } else {
        t
    }
}

/// Scroll offset that keeps `selected` visible.
pub open spec fn adjusted_scroll(selected: int, scroll: int, height: u16) -> int {
    let v = visible_rows(height);
    if selected < scroll {
        selected
    } else if selected >= scroll + v {
        if selected > v - 1 {
            selected - (v - 1)
        } else {
            0
        }
    } else {
        scroll
    }
}

/// `b` is `a` with the selection moved by `delta` and the scroll adjusted;
/// nothing changes in an empty list.
pub open spec fn moved(a: ResultsApp, b: ResultsApp, delta: int) -> bool {
    if a.count() == 0 {
        b == a
    } else {
        let t = move_target(a.list_state().selection() as int, delta, a.count() as int);
        &&& b.list_state().selection() == t
        &&& b.list_state().scroll() == adjusted_scroll(t, a.list_state().scroll() as int, a.size().1)
        &&& b.list_state().grouped() == a.list_state().grouped()
        &&& b.same_but_list(a)
    }
}

/// `nb` is `na` after a view change to `mode` that records `na`'s view in the history.
pub open spec fn pushed_view(na: NavigationState, nb: NavigationState, mode: ViewMode) -> bool {
    &&& nb.history@ == na.history@.push(na.view_mode)
    &&& nb.view_mode == mode
    &&& nb.detail_page == na.detail_page
    &&& nb.dsm_enabled == na.dsm_enabled
    &&& nb.dsm_scroll_x == na.dsm_scroll_x
    &&& nb.dsm_scroll_y == na.dsm_scroll_y
    &&& nb.detail_scroll == na.detail_scroll
}

/// `nb` is `na` after going back: to the last view of the history, or to
/// List without history.
pub open spec fn went_back(na: NavigationState, nb: NavigationState) -> bool {
    &&& if na.history@.len() > 0 {
        nb.history@ == na.history@.drop_last() && nb.view_mode == na.history@.last()
    } else {
        nb.history@ == na.history@ && nb.view_mode == ViewMode::List
    }
    &&& nb.detail_page == na.detail_page
    &&& nb.dsm_enabled == na.dsm_enabled
    &&& nb.dsm_scroll_x == na.dsm_scroll_x
    &&& nb.dsm_scroll_y == na.dsm_scroll_y
    &&& nb.detail_scroll == na.detail_scroll
}

/// `nb` is `na` showing detail page `page` from the top.
pub open spec fn on_page(na: NavigationState, nb: NavigationState, page: DetailPage) -> bool {
    &&& nb.detail_page == page
    &&& nb.detail_scroll == initial_scroll()
    &&& nb.history@ == na.history@
    &&& nb.view_mode == na.view_mode
    &&& nb.dsm_enabled == na.dsm_enabled
    &&& nb.dsm_scroll_x == na.dsm_scroll_x
    &&& nb.dsm_scroll_y == na.dsm_scroll_y
}

/// `nb` is `na` with the detail view scrolled to vertical offset `y`.
pub open spec fn scrolled_to(na: NavigationState, nb: NavigationState, y: int) -> bool {
    &&& nb.detail_scroll.offset_y == y
    &&& nb.detail_scroll.offset_x == na.detail_scroll.offset_x
    &&& nb.detail_scroll.page_height == na.detail_scroll.page_height
    &&& nb.detail_page == na.detail_page
    &&& nb.history@ == na.history@
    &&& nb.view_mode == na.view_mode
    &&& nb.dsm_enabled == na.dsm_enabled
    &&& nb.dsm_scroll_x == na.dsm_scroll_x
    &&& nb.dsm_scroll_y == na.dsm_scroll_y
}

/// The available detail pages of the selected item.
pub open spec fn pages_of(a: ResultsApp) -> Seq<DetailPage> {
    spec_available_pages(a.selected(), a.analysis_data().data_flow_graph)
}

/// `b` is `a` after `text` was handed to the clipboard: it reports the copy
/// of `description` in its status message, and keeps `text` as the last
/// copied text unless no clipboard could be opened.
pub open spec fn copied(a: ResultsApp, b: ResultsApp, text: Seq<char>, description: Seq<char>) -> bool {
    &&& b.same_but_copy(a)
    &&& b.status_text() matches Some(m) && copy_recorded(m, description, text, a.last_copied(), b.last_copied())
}

/// The state change a list action makes.
pub open spec fn list_action_effect(a: ResultsApp, b: ResultsApp, action: ListAction) -> bool {
    match action {
        ListAction::Quit => b == a,
        ListAction::MoveUp => moved(a, b, -1),
        ListAction::MoveDown => moved(a, b, 1),
        ListAction::PageUp => moved(a, b, -20),
        ListAction::PageDown => moved(a, b, 20),
        ListAction::JumpToTop => {
            &&& b.list_state().selection() == 0
            &&& b.list_state().scroll() == 0
            &&& b.list_state().grouped() == a.list_state().grouped()
            &&& b.same_but_list(a)
        },
        ListAction::JumpToBottom => {
            let last = if a.count() > 0 { a.count() - 1 } else { 0 };
            &&& b.list_state().selection() == last
            &&& b.list_state().scroll() == adjusted_scroll(last, a.list_state().scroll() as int, a.size().1)
            &&& b.list_state().grouped() == a.list_state().grouped()
            &&& b.same_but_list(a)
        },
        ListAction::ToggleGrouping => {
            &&& b.list_state().grouped() == !a.list_state().grouped()
            &&& b.list_state().selection() == a.list_state().selection()
            &&& b.list_state().scroll() == a.list_state().scroll()
            &&& b.same_but_list(a)
        },
        ListAction::EnterDetail => pushed_view(a.nav_state(), b.nav_state(), ViewMode::Detail) && b.same_but_nav(a),
        ListAction::EnterSearch => {
            &&& pushed_view(a.nav_state(), b.nav_state(), ViewMode::Search)
            &&& b.query_state().search_state().text() == Seq::<char>::empty()
            &&& b.query_state().search_state().cursor() == 0
            &&& b.query_state().indices() == a.query_state().indices()
            &&& b.query_state().filter_list() == a.query_state().filter_list()
            &&& b.query_state().criteria() == a.query_state().criteria()
            &&& b.analysis_data() == a.analysis_data()
            &&& b.list_state() == a.list_state()
            &&& b.size() == a.size()
            &&& b.redraw_requested() == a.redraw_requested()
            &&& b.status_text() == a.status_text()
            &&& b.pending() == a.pending()
        },
        ListAction::OpenSortMenu => pushed_view(a.nav_state(), b.nav_state(), ViewMode::SortMenu) && b.same_but_nav(a),
        ListAction::OpenFilterMenu => pushed_view(a.nav_state(), b.nav_state(), ViewMode::FilterMenu) && b.same_but_nav(a),
        ListAction::ShowHelp => pushed_view(a.nav_state(), b.nav_state(), ViewMode::Help) && b.same_but_nav(a),
        ListAction::CopyPath => match a.selected() {
            Some(it) => copied(a, b, it.location.file@, "path"@),
            None => b == a,
        },
        ListAction::OpenInEditor => match a.selected() {
            Some(it) => {
                &&& b.same_but_pending(a)
                &&& b.pending() matches Some(Effect::OpenInEditor { file, line })
                &&& file@ == it.location.file@
                &&& line == it.location.line
            },
            None => b == a,
        },
    }
}

/// Offset after scrolling up `n` rows, stopping at the top.
pub open spec fn up_by(y: int, n: int) -> int {
    if y > n {
        y - n
    } else {
        0
    }
}

/// Offset after scrolling down `n` rows, stopping at the largest offset.
pub open spec fn down_by(y: int, n: int) -> int {
    if y + n <= u16::MAX {
        y + n
    } else {
        u16::MAX as int
    }
}

/// The state change a detail action makes.
pub open spec fn detail_action_effect(a: ResultsApp, b: ResultsApp, action: DetailAction) -> bool {
    let na = a.nav_state();
    let nb = b.nav_state();
    let y = na.detail_scroll.offset_y as int;
    let h = na.detail_scroll.page_height as int;
    match action {
        DetailAction::NavigateBack => went_back(na, nb) && b.same_but_nav(a),
        DetailAction::NextPage => on_page(na, nb, spec_next_available(pages_of(a), na.detail_page)) && b.same_but_nav(a),
        DetailAction::PrevPage => on_page(na, nb, spec_prev_available(pages_of(a), na.detail_page)) && b.same_but_nav(a),
        DetailAction::JumpToPage(p) => if pages_of(a).contains(p) {
            on_page(na, nb, p) && b.same_but_nav(a)
        } else {
            b == a
        },
        DetailAction::MoveSelection(d) => {
            &&& b.analysis_data() == a.analysis_data()
            &&& b.query_state() == a.query_state()
            &&& if a.count() == 0 {
                b.list_state() == a.list_state()
            } else {
                let t = move_target(a.list_state().selection() as int, d as int, a.count() as int);
                &&& b.list_state().selection() == t
                &&& b.list_state().scroll() == adjusted_scroll(t, a.list_state().scroll() as int, a.size().1)
                &&& b.list_state().grouped() == a.list_state().grouped()
            }
            &&& on_page(na, nb, if pages_of(b).contains(na.detail_page) { na.detail_page } else { DetailPage::Overview })
            &&& b.size() == a.size()
            &&& b.redraw_requested() == a.redraw_requested()
            &&& b.status_text() == a.status_text()
            &&& b.pending() == a.pending()
        },
        DetailAction::ScrollUp => scrolled_to(na, nb, up_by(y, 1)) && b.same_but_nav(a),
        DetailAction::ScrollDown => scrolled_to(na, nb, down_by(y, 1)) && b.same_but_nav(a),
        DetailAction::ScrollHalfPageUp => scrolled_to(na, nb, up_by(y, 10)) && b.same_but_nav(a),
        DetailAction::ScrollHalfPageDown => scrolled_to(na, nb, down_by(y, 10)) && b.same_but_nav(a),
        DetailAction::ScrollPageUp => scrolled_to(na, nb, up_by(y, h)) && b.same_but_nav(a),
        DetailAction::ScrollPageDown => scrolled_to(na, nb, down_by(y, h)) && b.same_but_nav(a),
        DetailAction::ScrollToTop => scrolled_to(na, nb, 0) && b.same_but_nav(a),
        DetailAction::ScrollToBottom => scrolled_to(na, nb, u16::MAX as int) && b.same_but_nav(a),
        DetailAction::CopyPage => match a.selected() {
            Some(it) => copied(a, b, page_text(it, na.detail_page, a.analysis_data()), "page content"@),
            None => b == a,
        },
        DetailAction::CopyItemAsLlm => match a.selected() {
            Some(it) => copied(a, b, page_text(it, DetailPage::Overview, a.analysis_data()), "finding"@),
            None => b == a,
        },
        DetailAction::CopyContext => match a.selected() {
            Some(it) => match it.context_suggestion {
                Some(c) => copied(a, b, context_clipboard_text(c), "context"@),
                None => b == a,
            },
            None => b == a,
        },
        DetailAction::CopyPrimary => match a.selected() {
            Some(it) => match it.context_suggestion {
                Some(c) => copied(a, b, primary_clipboard_text(c), "primary range"@),
                None => b == a,
            },
            None => b == a,
        },
        DetailAction::OpenInEditor => match a.selected() {
            Some(it) => {
                &&& b.same_but_pending(a)
                &&& b.pending() matches Some(Effect::OpenInEditor { file, line })
                &&& file@ == it.location.file@
                &&& line == it.location.line
            },
            None => b == a,
        },
        DetailAction::ShowHelp => if na.view_mode != ViewMode::Help {
            pushed_view(na, nb, ViewMode::Help) && b.same_but_nav(a)
        } else {
            b == a
        },
        _ => b == a,
    }
}

/// Move selection by delta (can be negative), keeping it within the list,
/// then scroll to keep it visible.
pub fn move_selection(app: &mut ResultsApp, delta: isize)
    requires
        can_move(*old(app), delta as int),
    ensures
        moved(*old(app), *final(app), delta as int),
{
    let count = app.item_count();
    if count == 0 {
        return;
    }
    let current = app.list().selected_index() as i128;
    let target = current + delta as i128;
    let new_index: usize = if target < 0 {
        0
    } else if target > count as i128 - 1 {
        count - 1
    } else {
        target as usize
    };
    app.list_mut().set_selected_index(new_index, count);
    adjust_scroll(app);
}

/// Adjust scroll offset to keep selection visible.
pub fn adjust_scroll(app: &mut ResultsApp)
    requires
        fits_view(old(app).list_state().selection() as int, old(app).list_state().scroll() as int, old(app).size().1),
    ensures
        final(app).list_state().scroll() == adjusted_scroll(
            old(app).list_state().selection() as int,
            old(app).list_state().scroll() as int,
            old(app).size().1,
        ),
        final(app).list_state().selection() == old(app).list_state().selection(),
        final(app).list_state().grouped() == old(app).list_state().grouped(),
        final(app).same_but_list(*old(app)),
{
    let selected = app.list().selected_index();
    let scroll = app.list().scroll_offset();
    let (_, height) = app.terminal_size();
    let visible_rows: usize = if height > 6 {
        (height - 6) as usize
    } else {
        0
    };
    if selected < scroll {
        app.list_mut().set_scroll_offset(selected);
    } else if scroll <= usize::MAX - visible_rows && selected >= scroll + visible_rows {
        let offset = if selected > visible_rows - 1 {
            selected - (visible_rows - 1)
        } else {
            0
        };
        app.list_mut().set_scroll_offset(offset);
    }
}

/// Navigate back using history-based navigation: to the last view of the
/// history; without history, to List.
pub fn navigate_back(app: &mut ResultsApp)
    ensures
        went_back(old(app).nav_state(), final(app).nav_state()),
        final(app).same_but_nav(*old(app)),
{
    let went = app.nav_mut().go_back();
    if went.is_none() && app.nav().view_mode != ViewMode::List {
        app.nav_mut().view_mode = ViewMode::List;
    }
}

/// Ensure current page is valid for the selected item (Overview otherwise).
pub fn ensure_valid_page(app: &mut ResultsApp)
    ensures
        final(app).nav_state().detail_page == (if pages_of(*old(app)).contains(old(app).nav_state().detail_page) {
            old(app).nav_state().detail_page
        } else {
            DetailPage::Overview
        }),
        final(app).nav_state().history@ == old(app).nav_state().history@,
        final(app).nav_state().view_mode == old(app).nav_state().view_mode,
        final(app).nav_state().dsm_enabled == old(app).nav_state().dsm_enabled,
        final(app).nav_state().dsm_scroll_x == old(app).nav_state().dsm_scroll_x,
        final(app).nav_state().dsm_scroll_y == old(app).nav_state().dsm_scroll_y,
        final(app).nav_state().detail_scroll == old(app).nav_state().detail_scroll,
        final(app).same_but_nav(*old(app)),
{
    let page = app.nav().detail_page;
    let new_page = valid_page_for(page, app.selected_item(), &app.analysis().data_flow_graph);
    app.nav_mut().detail_page = new_page;
}

/// Execute a list action; returns whether to quit.
pub fn execute_list_action(app: &mut ResultsApp, action: ListAction) -> (r: Result<bool, String>)
    requires
        list_action_fits(*old(app), action),
    ensures
        r == Ok::<bool, String>(action == ListAction::Quit),
        list_action_effect(*old(app), *final(app), action),
{
    match action {
        ListAction::Quit => {
            return Ok(true);
        },
        ListAction::MoveUp => move_selection(app, -1),
        ListAction::MoveDown => move_selection(app, 1),
        ListAction::JumpToTop => {
            let count = app.item_count();
            app.list_mut().set_selected_index(0, count);
            app.list_mut().set_scroll_offset(0);
        },
        ListAction::JumpToBottom => {
            let count = app.item_count();
            let last = if count > 0 {
                count - 1
            } else {
                0
            };
            app.list_mut().set_selected_index(last, count);
            adjust_scroll(app);
        },
        ListAction::PageUp => move_selection(app, -20),
        ListAction::PageDown => move_selection(app, 20),
        ListAction::ToggleGrouping => {
            app.list_mut().toggle_grouping();
        },
        ListAction::EnterDetail => {
            app.nav_mut().push_and_set_view(ViewMode::Detail);
        },
        ListAction::EnterSearch => {
            app.query_mut().search_mut().clear();
            app.nav_mut().push_and_set_view(ViewMode::Search);
        },
        ListAction::OpenSortMenu => {
            app.nav_mut().push_and_set_view(ViewMode::SortMenu);
        },
        ListAction::OpenFilterMenu => {
            app.nav_mut().push_and_set_view(ViewMode::FilterMenu);
        },
        ListAction::ShowHelp => {
            app.nav_mut().push_and_set_view(ViewMode::Help);
        },
        ListAction::CopyPath => {
            let text = match app.selected_item() {
                Some(item) => Some(format_path_text(item.location.file.as_str())),
                None => None,
            };
            match text {
                Some(t) => app.copy_text(t, "path"),
                None => {},
            }
        },
        ListAction::OpenInEditor => {
            match app.selected_item() {
                Some(item) => {
                    let file = item.location.file.clone();
                    let line = item.location.line;
                    app.set_pending_effect(Effect::OpenInEditor { file, line });
                },
                None => {},
            }
        },
    }
    Ok(false)
}

/// Execute a detail action; never asks to quit.
pub fn execute_detail_action(app: &mut ResultsApp, action: DetailAction) -> (r: Result<bool, String>)
    requires
        detail_action_fits(*old(app), action),
    ensures
        r == Ok::<bool, String>(false),
        detail_action_effect(*old(app), *final(app), action),
{
    match action {
        DetailAction::NavigateBack => {
            navigate_back(app);
        },
        DetailAction::NextPage => {
            let page = app.nav().detail_page;
            let new_page = next_available_page(page, app.selected_item(), &app.analysis().data_flow_graph);
            app.nav_mut().detail_page = new_page;
            app.nav_mut().reset_detail_scroll();
        },
        DetailAction::PrevPage => {
            let page = app.nav().detail_page;
            let new_page = prev_available_page(page, app.selected_item(), &app.analysis().data_flow_graph);
            app.nav_mut().detail_page = new_page;
            app.nav_mut().reset_detail_scroll();
        },
        DetailAction::JumpToPage(page) => {
            if is_page_available(page, app.selected_item(), &app.analysis().data_flow_graph) {
                app.nav_mut().detail_page = page;
                app.nav_mut().reset_detail_scroll();
            }
        },
        DetailAction::MoveSelection(delta) => {
            move_selection(app, delta as isize);
            ensure_valid_page(app);
            app.nav_mut().reset_detail_scroll();
        },
        DetailAction::ScrollUp => {
            app.nav_mut().detail_scroll.scroll_up();
        },
        DetailAction::ScrollDown => {
            app.nav_mut().detail_scroll.scroll_down();
        },
        DetailAction::ScrollHalfPageUp => {
            let mut k: usize = 0;
            let ghost a = *app;
            while k < 10
                invariant
                    k <= 10,
                    app.nav_state().detail_scroll.offset_y == up_by(a.nav_state().detail_scroll.offset_y as int, k as int),
                    scrolled_to(a.nav_state(), app.nav_state(), app.nav_state().detail_scroll.offset_y as int),
                    app.same_but_nav(a),
                decreases 10 - k,
            {
                app.nav_mut().detail_scroll.scroll_up();
                k = k + 1;
            }
        },
        DetailAction::ScrollHalfPageDown => {
            let mut k: usize = 0;
            let ghost a = *app;
            while k < 10
                invariant
                    k <= 10,
                    app.nav_state().detail_scroll.offset_y == down_by(a.nav_state().detail_scroll.offset_y as int, k as int),
                    scrolled_to(a.nav_state(), app.nav_state(), app.nav_state().detail_scroll.offset_y as int),
                    app.same_but_nav(a),
                decreases 10 - k,
            {
                app.nav_mut().detail_scroll.scroll_down();
                k = k + 1;
            }
        },
        DetailAction::ScrollPageUp => {
            app.nav_mut().detail_scroll.scroll_page_up();
        },
        DetailAction::ScrollPageDown => {
            app.nav_mut().detail_scroll.scroll_page_down();
        },
        DetailAction::ScrollToTop => {
            app.nav_mut().detail_scroll.scroll_to_top();
        },
        DetailAction::ScrollToBottom => {
            app.nav_mut().detail_scroll.scroll_to_bottom();
        },
        DetailAction::CopyPage => {
            let page = app.nav().detail_page;
            let text = match app.selected_item() {
                Some(item) => Some(extract_page_text(item, page, app)),
                None => None,
            };
            match text {
                Some(t) => app.copy_text(t, "page content"),
                None => {},
            }
        },
        DetailAction::CopyItemAsLlm => {
            let text = match app.selected_item() {
                Some(item) => Some(extract_page_text(item, DetailPage::Overview, app)),
                None => None,
            };
            match text {
                Some(t) => app.copy_text(t, "finding"),
                None => {},
            }
        },
        DetailAction::CopyContext => {
            let text = match app.selected_item() {
                Some(item) => match &item.context_suggestion {
                    Some(c) => Some(format_context_for_clipboard(c)),
                    None => None,
                },
                None => None,
            };
            match text {
                Some(t) => app.copy_text(t, "context"),
                None => {},
            }
        },
        DetailAction::CopyPrimary => {
            let text = match app.selected_item() {
                Some(item) => match &item.context_suggestion {
                    Some(c) => Some(format_primary_for_clipboard(c)),
                    None => None,
                },
                None => None,
            };
            match text {
                Some(t) => app.copy_text(t, "primary range"),
                None => {},
            }
        },
        DetailAction::OpenInEditor => {
            match app.selected_item() {
                Some(item) => {
                    let file = item.location.file.clone();
                    let line = item.location.line;
                    app.set_pending_effect(Effect::OpenInEditor { file, line });
                },
                None => {},
            }
        },
        DetailAction::ShowHelp => {
            if can_enter_help(app.nav().view_mode) {
                app.nav_mut().push_and_set_view(ViewMode::Help);
            }
        },
        _ => {},
    }
    Ok(false)
}


/// The context list keys are classified in.
pub open spec fn list_context(a: ResultsApp) -> ListActionContext {
    ListActionContext { has_items: a.count() > 0, has_selection: a.list_state().selection() < a.count() }
}

/// The context detail keys are classified in.
pub open spec fn detail_context(a: ResultsApp) -> DetailActionContext {
    DetailActionContext { current_page: a.nav_state().detail_page }
}

/// Whether the control key is held.
pub open spec fn control_held(key: KeyEvent) -> bool {
    key.modifiers.bits & 2u8 == 2u8
}

/// Search text and cursor (a byte offset) after an editing key; other keys
/// leave both.
pub open spec fn edited_search(text: Seq<char>, cursor: nat, key: KeyEvent) -> (Seq<char>, nat) {
    match key.code {
        KeyCode::Char(c) => if control_held(key) {
            (text, cursor)
        } else {
            (typed(text, cursor, c), cursor + 1)
        },
        KeyCode::Backspace => if cursor > 0 {
            (removed_at(text, (cursor - 1) as nat), (cursor - 1) as nat)
        } else {
            (text, cursor)
        },
        KeyCode::Delete => if cursor < byte_len(text) {
            (removed_at(text, cursor), cursor)
        } else {
            (text, cursor)
        },
        KeyCode::Left => (text, if cursor > 0 { (cursor - 1) as nat } else { 0 }),
        KeyCode::Right => (text, if cursor < byte_len(text) { cursor + 1 } else { cursor }),
        KeyCode::Home => (text, 0),
        KeyCode::End => (text, byte_len(text)),
        _ => (text, cursor),
    }
}

/// Whether an editing key can act on the search text at the cursor: typing
/// and deleting need the cursor (for backspace, the byte before it) on a
/// character boundary, and typing room for four more bytes.
pub open spec fn search_edit_fits(text: Seq<char>, cursor: nat, key: KeyEvent) -> bool {
    match key.code {
        KeyCode::Char(c) => control_held(key) || (on_boundary(text, cursor) && byte_len(text) + 4 <= usize::MAX),
        KeyCode::Backspace => cursor > 0 ==> on_boundary(text, (cursor - 1) as nat),
        KeyCode::Delete => cursor < byte_len(text) ==> on_boundary(text, cursor),
        _ => true,
    }
}

/// The sort order a sort-menu key picks.
pub open spec fn sort_choice(code: KeyCode) -> Option<SortCriteria> {
    match code {
        KeyCode::Char('1') => Some(SortCriteria::Score),
        KeyCode::Char('2') => Some(SortCriteria::Coverage),
        KeyCode::Char('3') => Some(SortCriteria::Complexity),
        KeyCode::Char('4') => Some(SortCriteria::FilePath),
        KeyCode::Char('5') => Some(SortCriteria::FunctionName),
        _ => None,
    }
}

/// The filter a filter-menu key adds.
pub open spec fn filter_choice(code: KeyCode) -> Option<Filter> {
    match code {
        KeyCode::Char('1') => Some(Filter::Severity(SeverityFilter::Critical)),
        KeyCode::Char('2') => Some(Filter::Severity(SeverityFilter::High)),
        KeyCode::Char('3') => Some(Filter::Severity(SeverityFilter::Medium)),
        KeyCode::Char('4') => Some(Filter::Severity(SeverityFilter::Low)),
        KeyCode::Char('n') => Some(Filter::Coverage(CoverageFilter::NoCoverage)),
        KeyCode::Char('l') => Some(Filter::Coverage(CoverageFilter::Low)),
        KeyCode::Char('m') => Some(Filter::Coverage(CoverageFilter::Medium)),
        KeyCode::Char('h') => Some(Filter::Coverage(CoverageFilter::High)),
        _ => None,
    }
}

/// Whether the key closes a menu (Esc or `q`).
pub open spec fn closes_menu(code: KeyCode) -> bool {
    code == KeyCode::Esc || code == KeyCode::Char('q')
}

/// Analysis, terminal size, redraw flag, status and pending work are as in `a`.
pub open spec fn same_rest(a: ResultsApp, b: ResultsApp) -> bool {
    &&& b.analysis_data() == a.analysis_data()
    &&& b.size() == a.size()
    &&& b.redraw_requested() == a.redraw_requested()
    &&& b.status_text() == a.status_text()
    &&& b.pending() == a.pending()
}

/// `b` is `a` with the query re-run for search `text` (cursor at `cursor`),
/// the list back at the top, and the view gone back.
pub open spec fn searched_and_back(a: ResultsApp, b: ResultsApp, text: Seq<char>, cursor: nat) -> bool {
    let q = a.query_state();
    &&& b.query_state().search_state().text() == text
    &&& b.query_state().search_state().cursor() == cursor
    &&& b.query_state().indices() == query_results(a.analysis_data().items@, text, q.filter_list(), q.criteria())
    &&& b.query_state().filter_list() == q.filter_list()
    &&& b.query_state().criteria() == q.criteria()
    &&& b.list_state().selection() == 0
    &&& b.list_state().scroll() == 0
    &&& b.list_state().grouped() == a.list_state().grouped()
    &&& went_back(a.nav_state(), b.nav_state())
    &&& same_rest(a, b)
}

/// The state change a key makes in search mode.
pub open spec fn search_key_effect(a: ResultsApp, b: ResultsApp, key: KeyEvent) -> bool {
    let s = a.query_state().search_state();
    match key.code {
        KeyCode::Esc => searched_and_back(a, b, Seq::<char>::empty(), 0),
        KeyCode::Enter => searched_and_back(a, b, s.text(), s.cursor()),
        _ => {
            let edited = edited_search(s.text(), s.cursor(), key);
            &&& b.query_state().search_state().text() == edited.0
            &&& b.query_state().search_state().cursor() == edited.1
            &&& b.query_state().indices() == a.query_state().indices()
            &&& b.query_state().filter_list() == a.query_state().filter_list()
            &&& b.query_state().criteria() == a.query_state().criteria()
            &&& b.list_state() == a.list_state()
            &&& b.nav_state() == a.nav_state()
            &&& same_rest(a, b)
        },
    }
}

/// The state change a key makes in the sort menu.
pub open spec fn sort_menu_effect(a: ResultsApp, b: ResultsApp, code: KeyCode) -> bool {
    match sort_choice(code) {
        Some(criteria) => {
            let q = a.query_state();
            &&& b.query_state().criteria() == criteria
            &&& b.query_state().indices() == sorted_indices(a.analysis_data().items@, q.indices(), criteria)
            &&& b.query_state().search_state() == q.search_state()
            &&& b.query_state().filter_list() == q.filter_list()
            &&& b.list_state() == a.list_state()
            &&& went_back(a.nav_state(), b.nav_state())
            &&& same_rest(a, b)
        },
        None => if closes_menu(code) {
            went_back(a.nav_state(), b.nav_state()) && b.same_but_nav(a)
        } else {
            b == a
        },
    }
}

/// The state change a key makes in the filter menu.
pub open spec fn filter_menu_effect(a: ResultsApp, b: ResultsApp, code: KeyCode) -> bool {
    let q = a.query_state();
    match filter_choice(code) {
        Some(f) => {
            &&& b.query_state().filter_list() == q.filter_list().push(f)
            &&& b.query_state().indices() == query_results(
                a.analysis_data().items@,
                q.search_state().text(),
                q.filter_list().push(f),
                q.criteria(),
            )
            &&& b.query_state().search_state() == q.search_state()
            &&& b.query_state().criteria() == q.criteria()
            &&& b.list_state().selection() == 0
            &&& b.list_state().scroll() == 0
            &&& b.list_state().grouped() == a.list_state().grouped()
            &&& went_back(a.nav_state(), b.nav_state())
            &&& same_rest(a, b)
        },
        None => if code == KeyCode::Char('c') {
            &&& b.query_state().filter_list() == Seq::<Filter>::empty()
            &&& b.query_state().indices() == query_results(
                a.analysis_data().items@,
                q.search_state().text(),
                Seq::<Filter>::empty(),
                q.criteria(),
            )
            &&& b.query_state().search_state() == q.search_state()
            &&& b.query_state().criteria() == q.criteria()
            &&& b.list_state() == a.list_state()
            &&& went_back(a.nav_state(), b.nav_state())
            &&& same_rest(a, b)
        } else if closes_menu(code) {
            went_back(a.nav_state(), b.nav_state()) && b.same_but_nav(a)
        } else {
            b == a
        },
    }
}

/// The state change a key makes, from the state `a` in which the status
/// message has already been cleared.
pub open spec fn key_effect(a: ResultsApp, b: ResultsApp, key: KeyEvent) -> bool {
    match a.nav_state().view_mode {
        ViewMode::List => match list_action_for(key.code, list_context(a)) {
            Some(action) => list_action_effect(a, b, action),
            None => b == a,
        },
        ViewMode::Detail => match detail_action_for(key.code, detail_context(a)) {
            Some(action) => detail_action_effect(a, b, action),
            None => b == a,
        },
        ViewMode::Search => search_key_effect(a, b, key),
        ViewMode::SortMenu => sort_menu_effect(a, b, key.code),
        ViewMode::FilterMenu => filter_menu_effect(a, b, key.code),
        ViewMode::Help => went_back(a.nav_state(), b.nav_state()) && b.same_but_nav(a),
        ViewMode::Dsm => if closes_menu(key.code) {
            went_back(a.nav_state(), b.nav_state()) && b.same_but_nav(a)
        } else {
            b == a
        },
    }
}

/// Whether the key quits the application: `q` in list view.
pub open spec fn quits(a: ResultsApp, key: KeyEvent) -> bool {
    a.nav_state().view_mode == ViewMode::List && list_action_for(key.code, list_context(a)) == Some(ListAction::Quit)
}

/// Whether the list can keep `selected` in view at the terminal height: it
/// shows rows (the terminal is taller than its six rows of header and
/// footer), or the selection lies above the first shown row.
pub open spec fn fits_view(selected: int, scroll: int, height: u16) -> bool {
    height > 6 || selected < scroll
}

/// Whether moving the selection by `delta` can keep it in view; an empty
/// list does not move.
pub open spec fn can_move(a: ResultsApp, delta: int) -> bool {
    a.count() == 0 || fits_view(
        move_target(a.list_state().selection() as int, delta, a.count() as int),
        a.list_state().scroll() as int,
        a.size().1,
    )
}

/// Whether a list action that moves the selection can keep it in view; the
/// other actions do not scroll.
pub open spec fn list_action_fits(a: ResultsApp, action: ListAction) -> bool {
    match action {
        ListAction::MoveUp => can_move(a, -1),
        ListAction::MoveDown => can_move(a, 1),
        ListAction::PageUp => can_move(a, -20),
        ListAction::PageDown => can_move(a, 20),
        ListAction::JumpToBottom => {
            let last = if a.count() > 0 { a.count() - 1 } else { 0 };
            fits_view(last, a.list_state().scroll() as int, a.size().1)
        },
        _ => true,
    }
}

/// Whether a detail action that moves the selection can keep it in view.
pub open spec fn detail_action_fits(a: ResultsApp, action: DetailAction) -> bool {
    match action {
        DetailAction::MoveSelection(d) => can_move(a, d as int),
        _ => true,
    }
}

/// Whether the key can act in the current view: where it moves the
/// selection, the selection stays in view; where it edits the search, the
/// cursor is on a character boundary.
pub open spec fn key_fits(a: ResultsApp, key: KeyEvent) -> bool {
    match a.nav_state().view_mode {
        ViewMode::List => match list_action_for(key.code, list_context(a)) {
            Some(action) => list_action_fits(a, action),
            None => true,
        },
        ViewMode::Detail => match detail_action_for(key.code, detail_context(a)) {
            Some(action) => detail_action_fits(a, action),
            None => true,
        },
        ViewMode::Search => search_edit_fits(a.query_state().search_state().text(), a.query_state().search_state().cursor(), key),
        _ => true,
    }
}

fn fits_view_at(app: &ResultsApp, selected: usize) -> (r: bool)
    ensures
        r == fits_view(selected as int, app.list_state().scroll() as int, app.size().1),
{
    let (_, height) = app.terminal_size();
    height > 6 || selected < app.list().scroll_offset()
}

fn can_move_by(app: &ResultsApp, delta: i128) -> (r: bool)
    requires
        -0x1_0000_0000_0000_0000 < delta < 0x1_0000_0000_0000_0000,
    ensures
        r == can_move(*app, delta as int),
{
    let count = app.item_count();
    if count == 0 {
        return true;
    }
    let target = app.list().selected_index() as i128 + delta;
    let t: usize = if target < 0 {
        0
    } else if target > count as i128 - 1 {
        count - 1
    } else {
        target as usize
    };
    fits_view_at(app, t)
}

/// Whether the key can act in the current view: where it moves the
/// selection, the selection stays in view (a terminal of six rows or fewer
/// shows no list rows); where it edits the search, the cursor is on a
/// character boundary.
pub fn key_fits_view(app: &ResultsApp, key: KeyEvent) -> (r: bool)
    ensures
        r == key_fits(*app, key),
{
    match app.nav().view_mode {
        ViewMode::List => {
            let ctx = ListActionContext { has_items: app.has_items(), has_selection: app.has_selection() };
            match determine_list_action(key, ctx) {
                Some(action) => match action {
                    ListAction::MoveUp => can_move_by(app, -1),
                    ListAction::MoveDown => can_move_by(app, 1),
                    ListAction::PageUp => can_move_by(app, -20),
                    ListAction::PageDown => can_move_by(app, 20),
                    ListAction::JumpToBottom => {
                        let count = app.item_count();
                        let last = if count > 0 { count - 1 } else { 0 };
                        fits_view_at(app, last)
                    },
                    _ => true,
                },
                None => true,
            }
        },
        ViewMode::Detail => {
            let ctx = DetailActionContext::new(app.nav().detail_page);
            match classify_detail_key(key, ctx) {
                Some(DetailAction::MoveSelection(d)) => can_move_by(app, d as i128),
                _ => true,
            }
        },
        ViewMode::Search => {
            let s = app.query().search();
            match key.code {
                KeyCode::Char(_) => key.modifiers.contains(KeyModifiers::control()) || s.can_insert(),
                KeyCode::Backspace => s.can_delete_back(),
                KeyCode::Delete => s.can_delete_forward(),
                _ => true,
            }
        },
        _ => true,
    }
}

/// Handle keyboard input and return whether to quit. The status message is
/// cleared first; the key then acts according to the current view.
pub fn handle_key(app: &mut ResultsApp, key: KeyEvent) -> (r: Result<bool, String>)
    requires
        key_fits(*old(app), key),
    ensures
        r == Ok::<bool, String>(quits(old(app).with_status_cleared(), key)),
        key_effect(old(app).with_status_cleared(), *final(app), key),
{
    proof {
        old(app).lemma_status_cleared();
    }
    app.clear_status_message();
    match app.nav().view_mode {
        ViewMode::List => handle_list_key(app, key),
        ViewMode::Detail => handle_detail_key(app, key),
        ViewMode::Search => handle_search_key(app, key),
        ViewMode::SortMenu => handle_sort_menu_key(app, key),
        ViewMode::FilterMenu => handle_filter_menu_key(app, key),
        ViewMode::Help => handle_help_key(app, key),
        ViewMode::Dsm => handle_dsm_key(app, key),
    }
}

/// Handle keys in list view.
fn handle_list_key(app: &mut ResultsApp, key: KeyEvent) -> (r: Result<bool, String>)
    requires
        old(app).nav_state().view_mode == ViewMode::List,
        key_fits(*old(app), key),
    ensures
        r == Ok::<bool, String>(list_action_for(key.code, list_context(*old(app))) == Some(ListAction::Quit)),
        match list_action_for(key.code, list_context(*old(app))) {
            Some(action) => list_action_effect(*old(app), *final(app), action),
            None => *final(app) == *old(app),
        },
{
    let ctx = ListActionContext { has_items: app.has_items(), has_selection: app.has_selection() };
    match determine_list_action(key, ctx) {
        Some(action) => execute_list_action(app, action),
        None => Ok(false),
    }
}

/// Handle keys in detail view.
fn handle_detail_key(app: &mut ResultsApp, key: KeyEvent) -> (r: Result<bool, String>)
    requires
        old(app).nav_state().view_mode == ViewMode::Detail,
        key_fits(*old(app), key),
    ensures
        r == Ok::<bool, String>(false),
        match detail_action_for(key.code, detail_context(*old(app))) {
            Some(action) => detail_action_effect(*old(app), *final(app), action),
            None => *final(app) == *old(app),
        },
{
    let ctx = DetailActionContext::new(app.nav().detail_page);
    match classify_detail_key(key, ctx) {
        Some(action) => execute_detail_action(app, action),
        None => Ok(false),
    }
}

/// Handle keys in search mode: Esc clears the search, Enter keeps it; both
/// re-run the query and go back. Other keys edit the query.
fn handle_search_key(app: &mut ResultsApp, key: KeyEvent) -> (r: Result<bool, String>)
    requires
        search_edit_fits(old(app).query_state().search_state().text(), old(app).query_state().search_state().cursor(), key),
    ensures
        r == Ok::<bool, String>(false),
        search_key_effect(*old(app), *final(app), key),
{
    match key.code {
        KeyCode::Esc => {
            app.query_mut().search_mut().clear();
            app.apply_search();
            navigate_back(app);
        },
        KeyCode::Enter => {
            app.apply_search();
            navigate_back(app);
        },
        KeyCode::Char(c) => {
            if !key.modifiers.contains(KeyModifiers::control()) {
                app.query_mut().search_mut().insert_char(c);
            }
        },
        KeyCode::Backspace => {
            app.query_mut().search_mut().delete_char();
        },
        KeyCode::Delete => {
            app.query_mut().search_mut().delete_char_forward();
        },
        KeyCode::Left => {
            app.query_mut().search_mut().move_cursor_left();
        },
        KeyCode::Right => {
            app.query_mut().search_mut().move_cursor_right();
        },
        KeyCode::Home => {
            app.query_mut().search_mut().move_cursor_home();
        },
        KeyCode::End => {
            app.query_mut().search_mut().move_cursor_end();
        },
        _ => {},
    }
    Ok(false)
}

/// Handle keys in the sort menu: a digit picks an order and goes back.
fn handle_sort_menu_key(app: &mut ResultsApp, key: KeyEvent) -> (r: Result<bool, String>)
    ensures
        r == Ok::<bool, String>(false),
        sort_menu_effect(*old(app), *final(app), key.code),
{
    let choice = match key.code {
        KeyCode::Char('1') => Some(SortCriteria::Score),
        KeyCode::Char('2') => Some(SortCriteria::Coverage),
        KeyCode::Char('3') => Some(SortCriteria::Complexity),
        KeyCode::Char('4') => Some(SortCriteria::FilePath),
        KeyCode::Char('5') => Some(SortCriteria::FunctionName),
        _ => None,
    };
    match choice {
        Some(criteria) => {
            app.set_sort_by(criteria);
            navigate_back(app);
        },
        None => {
            if key.code == KeyCode::Esc || key.code == KeyCode::Char('q') {
                navigate_back(app);
            }
        },
    }
    Ok(false)
}

/// Handle keys in the filter menu: severity digits and coverage letters add a
/// filter, `c` clears them; each goes back.
fn handle_filter_menu_key(app: &mut ResultsApp, key: KeyEvent) -> (r: Result<bool, String>)
    ensures
        r == Ok::<bool, String>(false),
        filter_menu_effect(*old(app), *final(app), key.code),
{
    let choice = match key.code {
        KeyCode::Char('1') => Some(Filter::Severity(SeverityFilter::Critical)),
        KeyCode::Char('2') => Some(Filter::Severity(SeverityFilter::High)),
        KeyCode::Char('3') => Some(Filter::Severity(SeverityFilter::Medium)),
        KeyCode::Char('4') => Some(Filter::Severity(SeverityFilter::Low)),
        KeyCode::Char('n') => Some(Filter::Coverage(CoverageFilter::NoCoverage)),
        KeyCode::Char('l') => Some(Filter::Coverage(CoverageFilter::Low)),
        KeyCode::Char('m') => Some(Filter::Coverage(CoverageFilter::Medium)),
        KeyCode::Char('h') => Some(Filter::Coverage(CoverageFilter::High)),
        _ => None,
    };
    match choice {
        Some(f) => {
            app.add_filter(f);
            navigate_back(app);
        },
        None => {
            if key.code == KeyCode::Char('c') {
                app.clear_filters();
                navigate_back(app);
            } else if key.code == KeyCode::Esc || key.code == KeyCode::Char('q') {
                navigate_back(app);
            }
        },
    }
    Ok(false)
}

/// Handle keys in the help overlay: any key goes back.
fn handle_help_key(app: &mut ResultsApp, key: KeyEvent) -> (r: Result<bool, String>)
    ensures
        r == Ok::<bool, String>(false),
        went_back(old(app).nav_state(), final(app).nav_state()),
        final(app).same_but_nav(*old(app)),
{
    navigate_back(app);
    Ok(false)
}

/// Handle keys in the dependency matrix view: Esc or `q` goes back.
fn handle_dsm_key(app: &mut ResultsApp, key: KeyEvent) -> (r: Result<bool, String>)
    ensures
        r == Ok::<bool, String>(false),
        if closes_menu(key.code) {
            went_back(old(app).nav_state(), final(app).nav_state()) && final(app).same_but_nav(*old(app))
        } else {
            *final(app) == *old(app)
        },
{
    if key.code == KeyCode::Esc || key.code == KeyCode::Char('q') {
        navigate_back(app);
    }
    Ok(false)
}

/// In the filter menu a filter key adds one filter to the list and goes
/// back: `1` to `4` keep the critical (score from 100), high (50 to 100),
/// medium (10 to 50) and low (below 10) severity bands; `n` keeps items
/// without coverage data, `l` coverage below 30%, `m` from 30% to 70%, `h`
/// from 70%; `c` clears the filters.
pub proof fn lemma_filter_menu_keys(a: ResultsApp, b: ResultsApp, key: KeyEvent)
    requires
        a.nav_state().view_mode == ViewMode::FilterMenu,
        key_effect(a, b, key),
    ensures
        filter_choice(key.code) is Some ==> {
            let before = a.query_state().filter_list();
            let after = b.query_state().filter_list();
            &&& after.len() == before.len() + 1
            &&& after.drop_last() == before
            &&& went_back(a.nav_state(), b.nav_state())
        },
        key.code == KeyCode::Char('1') ==> forall|item: UnifiedDebtItem|
            #[trigger] filter_matches(b.query_state().filter_list().last(), item) <==> item.final_score >= 10000,
        key.code == KeyCode::Char('2') ==> forall|item: UnifiedDebtItem|
            #[trigger] filter_matches(b.query_state().filter_list().last(), item) <==> 5000 <= item.final_score
                && item.final_score < 10000,
        key.code == KeyCode::Char('3') ==> forall|item: UnifiedDebtItem|
            #[trigger] filter_matches(b.query_state().filter_list().last(), item) <==> 1000 <= item.final_score
                && item.final_score < 5000,
        key.code == KeyCode::Char('4') ==> forall|item: UnifiedDebtItem|
            #[trigger] filter_matches(b.query_state().filter_list().last(), item) <==> item.final_score < 1000,
        key.code == KeyCode::Char('n') ==> forall|item: UnifiedDebtItem|
            #[trigger] filter_matches(b.query_state().filter_list().last(), item) <==> item.coverage is None,
        key.code == KeyCode::Char('l') ==> forall|item: UnifiedDebtItem|
            #[trigger] filter_matches(b.query_state().filter_list().last(), item) <==> (item.coverage matches Some(
                c,
            ) && c < 3000),
        key.code == KeyCode::Char('m') ==> forall|item: UnifiedDebtItem|
            #[trigger] filter_matches(b.query_state().filter_list().last(), item) <==> (item.coverage matches Some(
                c,
            ) && 3000 <= c && c < 7000),
        key.code == KeyCode::Char('h') ==> forall|item: UnifiedDebtItem|
            #[trigger] filter_matches(b.query_state().filter_list().last(), item) <==> (item.coverage matches Some(
                c,
            ) && c >= 7000),
        key.code == KeyCode::Char('c') ==> b.query_state().filter_list().len() == 0 && went_back(
            a.nav_state(),
            b.nav_state(),
        ),
{
    let before = a.query_state().filter_list();
    let after = b.query_state().filter_list();
    match filter_choice(key.code) {
        Some(f) => {
            assert(after == before.push(f));
            assert(after.last() == f);
            assert(after.drop_last() =~= before);
            assert forall|item: UnifiedDebtItem| #[trigger] filter_matches(after.last(), item) == filter_matches(f, item) by {
                lemma_filter_meaning(f, item);
            }
        },
        None => {},
    }
}

/// In the sort menu the digit keys pick the orders the menu names, `1` to
/// `5`: score, coverage, complexity, file path, function name; the list is
/// then sorted by the order picked.
pub proof fn lemma_sort_menu_keys(a: ResultsApp, b: ResultsApp, key: KeyEvent)
    requires
        a.nav_state().view_mode == ViewMode::SortMenu,
        key_effect(a, b, key),
    ensures
        sort_choice(key.code) is Some ==> b.query_state().indices() == sorted_indices(
            a.analysis_data().items@,
            a.query_state().indices(),
            b.query_state().criteria(),
        ) && went_back(a.nav_state(), b.nav_state()),
        key.code == KeyCode::Char('1') ==> criteria_name(b.query_state().criteria()) == "score"@,
        key.code == KeyCode::Char('2') ==> criteria_name(b.query_state().criteria()) == "coverage"@,
        key.code == KeyCode::Char('3') ==> criteria_name(b.query_state().criteria()) == "complexity"@,
        key.code == KeyCode::Char('4') ==> criteria_name(b.query_state().criteria()) == "file path"@,
        key.code == KeyCode::Char('5') ==> criteria_name(b.query_state().criteria()) == "function name"@,
{
}

} // verus!
