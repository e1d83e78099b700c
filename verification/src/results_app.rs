//! Application state of the results browser: the analysis being browsed and
//! the list, query and navigation state.
use vstd::prelude::*;
use crate::actions::{copy_recorded, copy_report, hand_to_clipboard, report_text};
use std::time::{Duration, Instant};
use crate::detail_page::DetailPage;
use crate::filter::Filter;
use crate::grouping::{LocationGroup, group_by_location, sorted_groups, group_built, values};
use crate::item::{FileDebtItem, PreparedDebtView, UnifiedAnalysis, UnifiedDebtItem, ViewItem, file_items_of, function_items};
use crate::list_state::ListState;
use crate::nav_state::NavigationState;
use crate::query_state::{QueryState, query_results};
use crate::search::all_positions;
use crate::sort::{SortCriteria, sorted_indices};
use crate::text::{push_decimal, push_str, decimal};

verus! {

#[verifier::external_type_specification]
#[verifier::external_body]
pub struct ExInstant(Instant);

/// The current instant.
///
/// Calls `std::time::Instant::now`; nothing is claimed of the result.
#[verifier::external_body]
pub(crate) fn instant_now() -> Instant {
    Instant::now()
}

/// Time elapsed since `created`.
///
/// Calls `std::time::Instant::elapsed`; the result depends on the clock, and
/// nothing is claimed of it.
#[verifier::external_body]
pub(crate) fn instant_elapsed(created: &Instant) -> Duration {
    created.elapsed()
}

/// Whole milliseconds of a duration.
///
/// Calls `std::time::Duration::as_millis`; nothing is claimed of the result.
#[verifier::external_body]
fn duration_millis(d: &Duration) -> u128 {
    d.as_millis()
}

/// How long status messages remain visible, in milliseconds.
pub const STATUS_MESSAGE_MILLIS: u128 = 3000;

/// Work outside the library that a key asked for: the caller performs it and
/// reports back through the application state.
#[derive(Debug, Clone)]
pub enum Effect {
    /// Open this file at this line in the user's editor.
    OpenInEditor { file: String, line: usize },
}

/// Items at the in-range indices, in index order.
pub open spec fn filtered_refs(items: Seq<UnifiedDebtItem>, indices: Seq<usize>) -> Seq<UnifiedDebtItem>
    decreases indices.len(),
{
    if indices.len() == 0 {
        Seq::empty()
    } else {
        let prev = filtered_refs(items, indices.drop_last());
        let i = indices.last();
        if i < items.len() {
            prev.push(items[i as int])
        } else {
            prev
        }
    }
}

/// Main application state.
pub struct ResultsApp {
    analysis: UnifiedAnalysis,
    list: ListState,
    query: QueryState,
    nav: NavigationState,
    terminal_size: (u16, u16),
    needs_redraw: bool,
    status_message: Option<(String, Instant)>,
    pending_effect: Option<Effect>,
    last_copy: Option<String>,
}

impl ResultsApp {
    /// The analysis being browsed.
    pub closed spec fn analysis_data(self) -> UnifiedAnalysis {
        self.analysis
    }

    /// List state.
    pub closed spec fn list_state(self) -> ListState {
        self.list
    }

    /// Query state.
    pub closed spec fn query_state(self) -> QueryState {
        self.query
    }

    /// Navigation state.
    pub closed spec fn nav_state(self) -> NavigationState {
        self.nav
    }

    /// Terminal size (width, height).
    pub closed spec fn size(self) -> (u16, u16) {
        self.terminal_size
    }

    /// Whether a full redraw was requested.
    pub closed spec fn redraw_requested(self) -> bool {
        self.needs_redraw
    }

    /// Text of the status message, if one was set and not cleared.
    pub closed spec fn status_text(self) -> Option<Seq<char>> {
        match self.status_message {
            Some(m) => Some(m.0@),
            None => None,
        }
    }

    /// Work a key asked for that has not been taken yet.
    pub closed spec fn pending(self) -> Option<Effect> {
        self.pending_effect
    }

    /// The text most recently handed to the clipboard, if any.
    pub closed spec fn last_copied(self) -> Option<Seq<char>> {
        match self.last_copy {
            Some(t) => Some(t@),
            None => None,
        }
    }

    /// The shown items (filtered and sorted).
    pub open spec fn shown(self) -> Seq<UnifiedDebtItem> {
        filtered_refs(self.analysis_data().items@, self.query_state().indices())
    }

    /// The location groups of the shown items, in display order.
    pub open spec fn groups(self) -> Seq<Seq<usize>> {
        sorted_groups(self.shown(), self.query_state().criteria())
    }

    /// Number of entries in the list (locations).
    pub open spec fn count(self) -> nat {
        self.groups().len()
    }

    /// The selected item: the first item of the selected location, if any.
    pub open spec fn selected(self) -> Option<UnifiedDebtItem> {
        let sel = self.list_state().selection();
        if sel < self.count() {
            Some(self.shown()[self.groups()[sel as int][0] as int])
        } else {
            None
        }
    }

    /// Everything but the navigation state is as in `other`.
    pub open spec fn same_but_nav(self, other: ResultsApp) -> bool {
        &&& self.analysis_data() == other.analysis_data()
        &&& self.list_state() == other.list_state()
        &&& self.query_state() == other.query_state()
        &&& self.size() == other.size()
        &&& self.redraw_requested() == other.redraw_requested()
        &&& self.status_text() == other.status_text()
        &&& self.pending() == other.pending()
        &&& self.last_copied() == other.last_copied()
    }

    /// Everything but the list state is as in `other`.
    pub open spec fn same_but_list(self, other: ResultsApp) -> bool {
        &&& self.analysis_data() == other.analysis_data()
        &&& self.nav_state() == other.nav_state()
        &&& self.query_state() == other.query_state()
        &&& self.size() == other.size()
        &&& self.redraw_requested() == other.redraw_requested()
        &&& self.status_text() == other.status_text()
        &&& self.pending() == other.pending()
        &&& self.last_copied() == other.last_copied()
    }

    /// Everything but the status message and the last copied text is as in
    /// `other`.
    pub open spec fn same_but_copy(self, other: ResultsApp) -> bool {
        &&& self.analysis_data() == other.analysis_data()
        &&& self.nav_state() == other.nav_state()
        &&& self.list_state() == other.list_state()
        &&& self.query_state() == other.query_state()
        &&& self.size() == other.size()
        &&& self.redraw_requested() == other.redraw_requested()
        &&& self.pending() == other.pending()
    }

    /// Everything but the pending work is as in `other`.
    pub open spec fn same_but_pending(self, other: ResultsApp) -> bool {
        &&& self.analysis_data() == other.analysis_data()
        &&& self.nav_state() == other.nav_state()
        &&& self.list_state() == other.list_state()
        &&& self.query_state() == other.query_state()
        &&& self.size() == other.size()
        &&& self.redraw_requested() == other.redraw_requested()
        &&& self.status_text() == other.status_text()
        &&& self.last_copied() == other.last_copied()
    }

    /// This state with the status message removed.
    pub closed spec fn with_status_cleared(self) -> ResultsApp {
        ResultsApp { status_message: None, ..self }
    }

    /// Removing the status message changes nothing else.
    pub proof fn lemma_status_cleared(self)
        ensures
            self.with_status_cleared().status_text() is None,
            self.with_status_cleared().analysis_data() == self.analysis_data(),
            self.with_status_cleared().list_state() == self.list_state(),
            self.with_status_cleared().query_state() == self.query_state(),
            self.with_status_cleared().nav_state() == self.nav_state(),
            self.with_status_cleared().size() == self.size(),
            self.with_status_cleared().redraw_requested() == self.redraw_requested(),
            self.with_status_cleared().pending() == self.pending(),
            self.with_status_cleared().last_copied() == self.last_copied(),
    {
    }

    /// Create new application state from analysis results.
    pub fn new(analysis: UnifiedAnalysis) -> (r: Self)
        ensures
            r.analysis_data() == analysis,
            r.list_state().selection() == 0,
            r.list_state().scroll() == 0,
            r.list_state().grouped(),
            r.query_state().indices() == all_positions(analysis.items@.len()),
            r.query_state().search_state().text() == Seq::<char>::empty(),
            r.query_state().filter_list() == Seq::<Filter>::empty(),
            r.query_state().criteria() == SortCriteria::Score,
            r.nav_state().view_mode == crate::view_mode::ViewMode::List,
            r.nav_state().history@ == Seq::<crate::view_mode::ViewMode>::empty(),
            r.nav_state().detail_page == DetailPage::Overview,
            r.nav_state().dsm_enabled,
            r.size() == (80u16, 24u16),
            !r.redraw_requested(),
            r.status_text() is None,
            r.pending() is None,
            r.last_copied() is None,
    {
        let item_count = analysis.items.len();
        ResultsApp {
            analysis,
            list: ListState::new(),
            query: QueryState::new(item_count),
            nav: NavigationState::new(true),
            terminal_size: (80, 24),
            needs_redraw: false,
            status_message: None,
            pending_effect: None,
            last_copy: None,
        }
    }

    /// Create application state from a prepared view: the analysis with its
    /// items and file items replaced by the view's function-level and
    /// file-level findings, in view order.
    pub fn from_prepared_view(view: PreparedDebtView, analysis: UnifiedAnalysis) -> (r: Self)
        ensures
            r.analysis_data().items@ == function_items(view.items@),
            r.analysis_data().file_items@ == file_items_of(view.items@),
            r.analysis_data().data_flow_graph == analysis.data_flow_graph,
            r.list_state().selection() == 0,
            r.list_state().scroll() == 0,
            r.list_state().grouped(),
            r.query_state().indices() == all_positions(function_items(view.items@).len()),
            r.query_state().search_state().text() == Seq::<char>::empty(),
            r.query_state().filter_list() == Seq::<Filter>::empty(),
            r.query_state().criteria() == SortCriteria::Score,
            r.nav_state().view_mode == crate::view_mode::ViewMode::List,
            r.nav_state().history@ == Seq::<crate::view_mode::ViewMode>::empty(),
            r.nav_state().detail_page == DetailPage::Overview,
            r.nav_state().dsm_enabled,
            r.size() == (80u16, 24u16),
            !r.redraw_requested(),
            r.status_text() is None,
            r.pending() is None,
            r.last_copied() is None,
    {
        let ghost all = view.items@;
        let mut rest = view.items;
        let total = rest.len();
        let mut functions: Vec<UnifiedDebtItem> = Vec::new();
        let mut files: Vec<FileDebtItem> = Vec::new();
        let mut i: usize = 0;
        while rest.len() > 0
            invariant
                i + rest@.len() == all.len(),
                all.len() == total,
                rest@ == all.subrange(i as int, all.len() as int),
                functions@ == function_items(all.take(i as int)),
                files@ == file_items_of(all.take(i as int)),
            decreases rest@.len(),
        {
            let item = rest.remove(0);
            proof {
                assert(all.take(i + 1).drop_last() =~= all.take(i as int));
                assert(all.take(i + 1).last() == item);
            }
            match item {
                ViewItem::Function(f) => functions.push(f),
                ViewItem::File(f) => files.push(f),
            }
            i = i + 1;
            assert(rest@ =~= all.subrange(i as int, all.len() as int));
        }
        assert(all.take(i as int) =~= all);
        let mut analysis = analysis;
        analysis.items = functions;
        analysis.file_items = files;
        ResultsApp::new(analysis)
    }

    /// Get reference to list state.
    pub fn list(&self) -> (r: &ListState)
        ensures
            *r == self.list_state(),
    {
        &self.list
    }

    /// Get mutable reference to list state.
    pub fn list_mut(&mut self) -> (r: &mut ListState)
        ensures
            *r == old(self).list_state(),
            final(self).list_state() == *final(r),
            final(self).analysis_data() == old(self).analysis_data(),
            final(self).query_state() == old(self).query_state(),
            final(self).nav_state() == old(self).nav_state(),
            final(self).size() == old(self).size(),
            final(self).redraw_requested() == old(self).redraw_requested(),
            final(self).status_text() == old(self).status_text(),
            final(self).pending() == old(self).pending(),
            final(self).last_copied() == old(self).last_copied(),
    {
        &mut self.list
    }

    /// Get reference to query state.
    pub fn query(&self) -> (r: &QueryState)
        ensures
            *r == self.query_state(),
    {
        &self.query
    }

    /// Get mutable reference to query state.
    pub fn query_mut(&mut self) -> (r: &mut QueryState)
        ensures
            *r == old(self).query_state(),
            final(self).query_state() == *final(r),
            final(self).analysis_data() == old(self).analysis_data(),
            final(self).list_state() == old(self).list_state(),
            final(self).nav_state() == old(self).nav_state(),
            final(self).size() == old(self).size(),
            final(self).redraw_requested() == old(self).redraw_requested(),
            final(self).status_text() == old(self).status_text(),
            final(self).pending() == old(self).pending(),
            final(self).last_copied() == old(self).last_copied(),
    {
        &mut self.query
    }

    /// Get reference to navigation state.
    pub fn nav(&self) -> (r: &NavigationState)
        ensures
            *r == self.nav_state(),
    {
        &self.nav
    }

    /// Get mutable reference to navigation state.
    pub fn nav_mut(&mut self) -> (r: &mut NavigationState)
        ensures
            *r == old(self).nav_state(),
            final(self).nav_state() == *final(r),
            final(self).same_but_nav(*old(self)),
    {
        &mut self.nav
    }

    /// Detail view scroll offset as (vertical, horizontal).
    pub fn detail_scroll_offset(&self) -> (r: (u16, u16))
        ensures
            r == (self.nav_state().detail_scroll.offset_y, self.nav_state().detail_scroll.offset_x),
    {
        let offset = self.nav.detail_scroll.offset();
        (offset.y, offset.x)
    }

    /// Get reference to analysis.
    pub fn analysis(&self) -> (r: &UnifiedAnalysis)
        ensures
            *r == self.analysis_data(),
    {
        &self.analysis
    }

    /// The shown items, in display order of the filtered indices.
    pub fn filtered_items(&self) -> (r: Vec<&UnifiedDebtItem>)
        ensures
            values(r@) == self.shown(),
    {
        let indices = self.query.filtered_indices();
        let mut r: Vec<&UnifiedDebtItem> = Vec::new();
        let mut i: usize = 0;
        while i < indices.len()
            invariant
                i <= indices.len(),
                indices@ == self.query_state().indices(),
                values(r@) == filtered_refs(self.analysis.items@, indices@.take(i as int)),
            decreases indices.len() - i,
        {
            proof {
                assert(indices@.take(i + 1).drop_last() =~= indices@.take(i as int));
            }
            let idx = indices[i];
            if idx < self.analysis.items.len() {
                r.push(&self.analysis.items[idx]);
            }
            i = i + 1;
        }
        proof {
            assert(indices@.take(indices.len() as int) =~= indices@);
        }
        r
    }

    /// The location groups of the shown items, in display order.
    pub fn location_groups(&self) -> (r: Vec<LocationGroup<'_>>)
        ensures
            r.len() == self.groups().len(),
            forall|i: int| 0 <= i < r.len() ==> group_built(self.shown(), self.groups()[i], #[trigger] r@[i]),
            forall|i: int| 0 <= i < r.len() ==> (#[trigger] r@[i]).items@.len() > 0,
    {
        let items = self.filtered_items();
        let r = group_by_location(&items, self.query.sort_by());
        r
    }

    /// Get the currently selected item: the first item of the selected location.
    pub fn selected_item(&self) -> (r: Option<&UnifiedDebtItem>)
        ensures
            match r {
                Some(it) => self.selected() == Some(*it),
                None => self.selected() is None,
            },
    {
        let groups = self.location_groups();
        let sel = self.list.selected_index();
        if sel < groups.len() {
            let g = &groups[sel];
            assert(g.items@.len() > 0);
            assert(group_built(self.shown(), self.groups()[sel as int], groups@[sel as int]));
            assert(values(g.items@)[0] == *g.items@[0]);
            assert(crate::grouping::group_members(self.shown(), self.groups()[sel as int])[0] == self.shown()[self.groups()[sel as int][0] as int]);
            Some(g.items[0])
        } else {
            None
        }
    }

    /// Get total item count (filtered, grouped by location).
    pub fn item_count(&self) -> (r: usize)
        ensures
            r == self.count(),
    {
        let groups = self.location_groups();
        groups.len()
    }

    /// Get terminal size.
    pub fn terminal_size(&self) -> (r: (u16, u16))
        ensures
            r == self.size(),
    {
        self.terminal_size
    }

    /// Record the terminal size (as the renderer does on each frame).
    pub fn set_terminal_size(&mut self, width: u16, height: u16)
        ensures
            final(self).size() == (width, height),
            final(self).analysis_data() == old(self).analysis_data(),
            final(self).list_state() == old(self).list_state(),
            final(self).query_state() == old(self).query_state(),
            final(self).nav_state() == old(self).nav_state(),
            final(self).redraw_requested() == old(self).redraw_requested(),
            final(self).status_text() == old(self).status_text(),
            final(self).pending() == old(self).pending(),
            final(self).last_copied() == old(self).last_copied(),
    {
        self.terminal_size = (width, height);
    }

    /// Request a full redraw on next render.
    pub fn request_redraw(&mut self)
        ensures
            final(self).redraw_requested(),
            final(self).analysis_data() == old(self).analysis_data(),
            final(self).list_state() == old(self).list_state(),
            final(self).query_state() == old(self).query_state(),
            final(self).nav_state() == old(self).nav_state(),
            final(self).size() == old(self).size(),
            final(self).status_text() == old(self).status_text(),
            final(self).pending() == old(self).pending(),
            final(self).last_copied() == old(self).last_copied(),
    {
        self.needs_redraw = true;
    }

    /// Check if a full redraw is needed and clear the flag.
    pub fn take_needs_redraw(&mut self) -> (r: bool)
        ensures
            r == old(self).redraw_requested(),
            !final(self).redraw_requested(),
            final(self).analysis_data() == old(self).analysis_data(),
            final(self).list_state() == old(self).list_state(),
            final(self).query_state() == old(self).query_state(),
            final(self).nav_state() == old(self).nav_state(),
            final(self).size() == old(self).size(),
            final(self).status_text() == old(self).status_text(),
            final(self).pending() == old(self).pending(),
            final(self).last_copied() == old(self).last_copied(),
    {
        let needs = self.needs_redraw;
        self.needs_redraw = false;
        needs
    }

    /// Set status message to display temporarily (for three seconds).
    pub fn set_status_message(&mut self, message: String)
        ensures
            final(self).status_text() == Some(message@),
            final(self).analysis_data() == old(self).analysis_data(),
            final(self).list_state() == old(self).list_state(),
            final(self).query_state() == old(self).query_state(),
            final(self).nav_state() == old(self).nav_state(),
            final(self).size() == old(self).size(),
            final(self).redraw_requested() == old(self).redraw_requested(),
            final(self).pending() == old(self).pending(),
            final(self).last_copied() == old(self).last_copied(),
    {
        let now = instant_now();
        self.status_message = Some((message, now));
    }

    /// The text most recently handed to the clipboard, if any.
    pub fn last_copied_text(&self) -> (r: Option<&str>)
        ensures
            r matches Some(t) ==> self.last_copied() == Some(t@),
            r is None <==> self.last_copied() is None,
    {
        match &self.last_copy {
            Some(t) => Some(t.as_str()),
            None => None,
        }
    }

    /// Hand `text` to the system clipboard, keep the text the clipboard was
    /// handed as the last copied text, and show the report of the copy as the
    /// status message.
    pub fn copy_text(&mut self, text: String, description: &str)
        ensures
            final(self).status_text() matches Some(m) && copy_recorded(
                m,
                description@,
                text@,
                old(self).last_copied(),
                final(self).last_copied(),
            ),
            final(self).same_but_copy(*old(self)),
    {
        let (outcome, handed) = hand_to_clipboard(text);
        let message = copy_report(&outcome, description);
        match handed {
            Some(h) => {
                self.last_copy = Some(h);
            },
            None => {},
        }
        self.set_status_message(message);
        assert(report_text(outcome, description@) == message@);
    }

    /// The status message shown when `elapsed_millis` milliseconds have passed
    /// since it was set: the message while that is under three seconds,
    /// otherwise none; none when no message is set.
    pub open spec fn shown_status(self, elapsed_millis: u128) -> Option<Seq<char>> {
        match self.status_text() {
            Some(t) => if elapsed_millis < STATUS_MESSAGE_MILLIS {
                Some(t)
            } else {
                None
            },
            None => None,
        }
    }

    /// Get the status message given the milliseconds elapsed since it was set.
    pub fn status_message_after(&self, elapsed_millis: u128) -> (r: Option<&str>)
        ensures
            match r {
                Some(m) => self.shown_status(elapsed_millis) == Some(m@),
                None => self.shown_status(elapsed_millis) is None,
            },
    {
        match &self.status_message {
            Some((msg, _)) => {
                if elapsed_millis < STATUS_MESSAGE_MILLIS {
                    Some(msg.as_str())
                } else {
                    None
                }
            },
            None => None,
        }
    }

    /// Get current status message if it hasn't expired: never a message other
    /// than the one set, and none when none is set. Whether it has expired
    /// depends on the clock; for each elapsed time the answer is that of
    /// `status_message_after`.
    pub fn status_message(&self) -> (r: Option<&str>)
        ensures
            self.status_text() is None ==> r is None,
            r is Some ==> self.status_text() == Some(r.unwrap()@),
    {
        match &self.status_message {
            Some((_, created)) => {
                let elapsed = instant_elapsed(created);
                let ms = duration_millis(&elapsed);
                self.status_message_after(ms)
            },
            None => None,
        }
    }

    /// Clear status message.
    pub fn clear_status_message(&mut self)
        ensures
            *final(self) == old(self).with_status_cleared(),
            final(self).status_text() is None,
            final(self).analysis_data() == old(self).analysis_data(),
            final(self).list_state() == old(self).list_state(),
            final(self).query_state() == old(self).query_state(),
            final(self).nav_state() == old(self).nav_state(),
            final(self).size() == old(self).size(),
            final(self).redraw_requested() == old(self).redraw_requested(),
            final(self).pending() == old(self).pending(),
            final(self).last_copied() == old(self).last_copied(),
    {
        self.status_message = None;
    }

    /// Expire the status message given the milliseconds elapsed since it was
    /// set: it is removed once three seconds have passed, and everything else
    /// stays as it was.
    pub fn expire_status_message_after(&mut self, elapsed_millis: u128)
        ensures
            final(self).status_text() == old(self).shown_status(elapsed_millis),
            *final(self) == (if old(self).status_text() is Some && elapsed_millis >= STATUS_MESSAGE_MILLIS {
                old(self).with_status_cleared()
            } else {
                *old(self)
            }),
            final(self).analysis_data() == old(self).analysis_data(),
            final(self).list_state() == old(self).list_state(),
            final(self).query_state() == old(self).query_state(),
            final(self).nav_state() == old(self).nav_state(),
            final(self).size() == old(self).size(),
            final(self).redraw_requested() == old(self).redraw_requested(),
            final(self).pending() == old(self).pending(),
            final(self).last_copied() == old(self).last_copied(),
    {
        let expired = self.status_message.is_some() && elapsed_millis >= STATUS_MESSAGE_MILLIS;
        if expired {
            self.status_message = None;
        }
    }

    /// Expire status message if its display duration has elapsed: the message
    /// is either kept or removed, as `expire_status_message_after` decides for
    /// the time that the clock gives.
    pub fn expire_status_message(&mut self)
        ensures
            final(self).status_text() == old(self).status_text() || final(self).status_text() is None,
            *final(self) == *old(self) || (old(self).status_text() is Some && *final(self)
                == old(self).with_status_cleared()),
            final(self).analysis_data() == old(self).analysis_data(),
            final(self).list_state() == old(self).list_state(),
            final(self).query_state() == old(self).query_state(),
            final(self).nav_state() == old(self).nav_state(),
            final(self).size() == old(self).size(),
            final(self).redraw_requested() == old(self).redraw_requested(),
            final(self).pending() == old(self).pending(),
            final(self).last_copied() == old(self).last_copied(),
    {
        let ms: u128 = match &self.status_message {
            Some((_, created)) => {
                let elapsed = instant_elapsed(created);
                duration_millis(&elapsed)
            },
            None => 0,
        };
        self.expire_status_message_after(ms);
    }

    /// Record work for the caller to perform.
    pub fn set_pending_effect(&mut self, effect: Effect)
        ensures
            final(self).pending() == Some(effect),
            final(self).analysis_data() == old(self).analysis_data(),
            final(self).list_state() == old(self).list_state(),
            final(self).query_state() == old(self).query_state(),
            final(self).nav_state() == old(self).nav_state(),
            final(self).size() == old(self).size(),
            final(self).redraw_requested() == old(self).redraw_requested(),
            final(self).status_text() == old(self).status_text(),
            final(self).last_copied() == old(self).last_copied(),
    {
        self.pending_effect = Some(effect);
    }

    /// Take the work a key asked for, if any.
    pub fn take_pending_effect(&mut self) -> (r: Option<Effect>)
        ensures
            r == old(self).pending(),
            final(self).pending() is None,
            final(self).analysis_data() == old(self).analysis_data(),
            final(self).list_state() == old(self).list_state(),
            final(self).query_state() == old(self).query_state(),
            final(self).nav_state() == old(self).nav_state(),
            final(self).size() == old(self).size(),
            final(self).redraw_requested() == old(self).redraw_requested(),
            final(self).status_text() == old(self).status_text(),
            final(self).last_copied() == old(self).last_copied(),
    {
        let r = self.pending_effect.take();
        r
    }

    /// Check if there's a selection (for navigation guards).
    pub fn has_selection(&self) -> (r: bool)
        ensures
            r == (self.list_state().selection() < self.count()),
    {
        self.list.selected_index() < self.item_count()
    }

    /// Check if there are items (for navigation guards).
    pub fn has_items(&self) -> (r: bool)
        ensures
            r == (self.count() > 0),
    {
        self.item_count() > 0
    }

    /// Count display for the header: "{locations} locations ({issues} issues)".
    pub fn count_display(&self) -> (r: String)
        ensures
            r@ == decimal(self.count()) + " locations ("@ + decimal(self.query_state().indices().len()) + " issues)"@,
    {
        proof {
            reveal_strlit(" locations (");
            reveal_strlit(" issues)");
        }
        let groups = self.item_count();
        let issue_count = self.query.filtered_indices().len();
        let mut s = String::new();
        push_decimal(&mut s, groups as u128);
        push_str(&mut s, " locations (");
        push_decimal(&mut s, issue_count as u128);
        push_str(&mut s, " issues)");
        assert(s@ =~= decimal(self.count()) + " locations ("@ + decimal(self.query_state().indices().len()) + " issues)"@);
        s
    }

    /// Apply search and reset list to the top.
    pub fn apply_search(&mut self)
        ensures
            final(self).query_state().indices() == query_results(
                old(self).analysis_data().items@,
                old(self).query_state().search_state().text(),
                old(self).query_state().filter_list(),
                old(self).query_state().criteria(),
            ),
            final(self).query_state().search_state() == old(self).query_state().search_state(),
            final(self).query_state().filter_list() == old(self).query_state().filter_list(),
            final(self).query_state().criteria() == old(self).query_state().criteria(),
            final(self).list_state().selection() == 0,
            final(self).list_state().scroll() == 0,
            final(self).list_state().grouped() == old(self).list_state().grouped(),
            final(self).analysis_data() == old(self).analysis_data(),
            final(self).nav_state() == old(self).nav_state(),
            final(self).size() == old(self).size(),
            final(self).status_text() == old(self).status_text(),
            final(self).pending() == old(self).pending(),
            final(self).last_copied() == old(self).last_copied(),
            final(self).redraw_requested() == old(self).redraw_requested(),
    {
        self.query.apply_search(&self.analysis);
        self.list.reset();
    }

    /// Set sort criteria (re-sorts the shown indices).
    pub fn set_sort_by(&mut self, criteria: SortCriteria)
        ensures
            final(self).query_state().criteria() == criteria,
            final(self).query_state().indices() == sorted_indices(
                old(self).analysis_data().items@,
                old(self).query_state().indices(),
                criteria,
            ),
            final(self).query_state().search_state() == old(self).query_state().search_state(),
            final(self).query_state().filter_list() == old(self).query_state().filter_list(),
            final(self).list_state() == old(self).list_state(),
            final(self).analysis_data() == old(self).analysis_data(),
            final(self).nav_state() == old(self).nav_state(),
            final(self).size() == old(self).size(),
            final(self).status_text() == old(self).status_text(),
            final(self).pending() == old(self).pending(),
            final(self).last_copied() == old(self).last_copied(),
            final(self).redraw_requested() == old(self).redraw_requested(),
    {
        self.query.set_sort_by(criteria, &self.analysis);
    }

    /// Add filter and reset list to the top.
    pub fn add_filter(&mut self, filter: Filter)
        ensures
            final(self).query_state().filter_list() == old(self).query_state().filter_list().push(filter),
            final(self).query_state().indices() == query_results(
                old(self).analysis_data().items@,
                old(self).query_state().search_state().text(),
                old(self).query_state().filter_list().push(filter),
                old(self).query_state().criteria(),
            ),
            final(self).query_state().search_state() == old(self).query_state().search_state(),
            final(self).query_state().criteria() == old(self).query_state().criteria(),
            final(self).list_state().selection() == 0,
            final(self).list_state().scroll() == 0,
            final(self).list_state().grouped() == old(self).list_state().grouped(),
            final(self).analysis_data() == old(self).analysis_data(),
            final(self).nav_state() == old(self).nav_state(),
            final(self).size() == old(self).size(),
            final(self).status_text() == old(self).status_text(),
            final(self).pending() == old(self).pending(),
            final(self).last_copied() == old(self).last_copied(),
            final(self).redraw_requested() == old(self).redraw_requested(),
    {
        self.query.add_filter(filter, &self.analysis);
        self.list.reset();
    }

    /// Clear filters (the list position is kept).
    pub fn clear_filters(&mut self)
        ensures
            final(self).query_state().filter_list() == Seq::<Filter>::empty(),
            final(self).query_state().indices() == query_results(
                old(self).analysis_data().items@,
                old(self).query_state().search_state().text(),
                Seq::<Filter>::empty(),
                old(self).query_state().criteria(),
            ),
            final(self).query_state().search_state() == old(self).query_state().search_state(),
            final(self).query_state().criteria() == old(self).query_state().criteria(),
            final(self).list_state() == old(self).list_state(),
            final(self).analysis_data() == old(self).analysis_data(),
            final(self).nav_state() == old(self).nav_state(),
            final(self).size() == old(self).size(),
            final(self).status_text() == old(self).status_text(),
            final(self).pending() == old(self).pending(),
            final(self).last_copied() == old(self).last_copied(),
            final(self).redraw_requested() == old(self).redraw_requested(),
    {
        self.query.clear_filters(&self.analysis);
    }
}

} // verus!
