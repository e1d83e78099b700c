//! List selection, scroll position, and grouping state.
use vstd::prelude::*;

verus! {

/// List selection, scroll position, and grouping state.
#[derive(Debug, Clone, Copy, PartialEq, Eq, Structural)]
pub struct ListState {
    selected_index: usize,
    scroll_offset: usize,
    show_grouped: bool,
}

/// The selection clamped to a list of `item_count` items: 0 for an empty
/// list, otherwise at most the last position.
pub open spec fn clamped(index: usize, item_count: usize) -> usize {
    if item_count == 0 {
        0
    } else if index < item_count {
        index
    } else {
        (item_count - 1) as usize
    }
}

impl ListState {
    /// Selected position.
    pub closed spec fn selection(self) -> usize {
        self.selected_index
    }

    /// Scroll offset.
    pub closed spec fn scroll(self) -> usize {
        self.scroll_offset
    }

    /// Whether grouping is on.
    pub closed spec fn grouped(self) -> bool {
        self.show_grouped
    }

    /// Create new list state: top of the list, grouping enabled.
    pub fn new() -> (r: Self)
        ensures
            r.selection() == 0,
            r.scroll() == 0,
            r.grouped(),
    {
        ListState { selected_index: 0, scroll_offset: 0, show_grouped: true }
    }

    /// Get selected index.
    pub fn selected_index(&self) -> (r: usize)
        ensures
            r == self.selection(),
    {
        self.selected_index
    }

    /// Set selected index, clamped to the item count.
    pub fn set_selected_index(&mut self, index: usize, item_count: usize)
        ensures
            final(self).selection() == clamped(index, item_count),
            final(self).scroll() == old(self).scroll(),
            final(self).grouped() == old(self).grouped(),
    {
        self.selected_index = clamp_selection(index, item_count);
    }

    /// Get scroll offset.
    pub fn scroll_offset(&self) -> (r: usize)
        ensures
            r == self.scroll(),
    {
        self.scroll_offset
    }

    /// Set scroll offset.
    pub fn set_scroll_offset(&mut self, offset: usize)
        ensures
            final(self).scroll() == offset,
            final(self).selection() == old(self).selection(),
            final(self).grouped() == old(self).grouped(),
    {
        self.scroll_offset = offset;
    }

    /// Check if grouping is enabled.
    pub fn is_grouped(&self) -> (r: bool)
        ensures
            r == self.grouped(),
    {
        self.show_grouped
    }

    /// Set grouping state.
    pub fn set_grouped(&mut self, grouped: bool)
        ensures
            final(self).grouped() == grouped,
            final(self).selection() == old(self).selection(),
            final(self).scroll() == old(self).scroll(),
    {
        self.show_grouped = grouped;
    }

    /// Toggle grouping on/off.
    pub fn toggle_grouping(&mut self)
        ensures
            final(self).grouped() == !old(self).grouped(),
            final(self).selection() == old(self).selection(),
            final(self).scroll() == old(self).scroll(),
    {
        self.show_grouped = !self.show_grouped;
    }

    /// Reset selection and scroll to top.
    pub fn reset(&mut self)
        ensures
            final(self).selection() == 0,
            final(self).scroll() == 0,
            final(self).grouped() == old(self).grouped(),
    {
        self.selected_index = 0;
        self.scroll_offset = 0;
    }
}

impl Default for ListState {
    fn default() -> (r: Self)
        ensures
            r.selection() == 0,
            r.scroll() == 0,
            r.grouped(),
    {
        ListState::new()
    }
}

/// Clamps selection index to valid range.
pub fn clamp_selection(index: usize, item_count: usize) -> (r: usize)
    ensures
        r == clamped(index, item_count),
{
    if item_count == 0 {
        0
    } else if index < item_count {
        index
    } else {
        item_count - 1
    }
}

/// Calculates the visible range for scrolling: from the scroll offset, at
/// most `viewport_height` items, not past the last item.
pub fn calculate_visible_range(scroll_offset: usize, viewport_height: usize, total_items: usize) -> (r: std::ops::Range<usize>)
    requires
        scroll_offset + viewport_height <= usize::MAX,
    ensures
        r.start == scroll_offset,
        r.end == if scroll_offset + viewport_height < total_items { scroll_offset + viewport_height } else { total_items as int },
{
    let start = scroll_offset;
    let sum = scroll_offset + viewport_height;
    let end = if sum < total_items {
        sum
    } else {
        total_items
    };
    start..end
}

/// Clamping never leaves an empty list's selection off 0, and keeps every
/// other selection on an item; in-range selections are kept.
pub proof fn lemma_clamp_in_range(index: usize, item_count: usize)
    ensures
        item_count == 0 ==> clamped(index, item_count) == 0,
        item_count > 0 ==> clamped(index, item_count) < item_count,
        index < item_count ==> clamped(index, item_count) == index,
{
}

} // verus!
