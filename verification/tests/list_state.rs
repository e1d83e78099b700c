use debtmap_tui::list_state::{calculate_visible_range, clamp_selection, ListState};

#[test]
fn test_default_state() {
    let state = ListState::default();
    assert_eq!(state.selected_index(), 0);
    assert_eq!(state.scroll_offset(), 0);
    assert!(state.is_grouped());
}

#[test]
fn test_clamp_selection_empty() {
    assert_eq!(clamp_selection(5, 0), 0);
}

#[test]
fn test_clamp_selection_within_bounds() {
    assert_eq!(clamp_selection(3, 10), 3);
}

#[test]
fn test_clamp_selection_exceeds_bounds() {
    assert_eq!(clamp_selection(15, 10), 9);
}

#[test]
fn test_clamp_selection_at_boundary() {
    assert_eq!(clamp_selection(9, 10), 9);
    assert_eq!(clamp_selection(10, 10), 9);
}

#[test]
fn test_set_selected_index_clamps() {
    let mut state = ListState::new();
    state.set_selected_index(100, 10);
    assert_eq!(state.selected_index(), 9);
}

#[test]
fn test_set_selected_index_empty_list() {
    let mut state = ListState::new();
    state.set_selected_index(5, 0);
    assert_eq!(state.selected_index(), 0);
}

#[test]
fn test_toggle_grouping() {
    let mut state = ListState::default();
    assert!(state.is_grouped());
    state.toggle_grouping();
    assert!(!state.is_grouped());
    state.toggle_grouping();
    assert!(state.is_grouped());
}

#[test]
fn test_set_grouped() {
    let mut state = ListState::default();
    state.set_grouped(false);
    assert!(!state.is_grouped());
    state.set_grouped(true);
    assert!(state.is_grouped());
}

#[test]
fn test_reset() {
    let mut state = ListState::new();
    state.set_selected_index(5, 10);
    state.set_scroll_offset(3);
    state.reset();
    assert_eq!(state.selected_index(), 0);
    assert_eq!(state.scroll_offset(), 0);
}

#[test]
fn test_scroll_offset() {
    let mut state = ListState::new();
    state.set_scroll_offset(10);
    assert_eq!(state.scroll_offset(), 10);
}

#[test]
fn test_calculate_visible_range_normal() {
    let range = calculate_visible_range(0, 10, 100);
    assert_eq!(range, 0..10);
}

#[test]
fn test_calculate_visible_range_with_offset() {
    let range = calculate_visible_range(5, 10, 100);
    assert_eq!(range, 5..15);
}

#[test]
fn test_calculate_visible_range_clamped() {
    let range = calculate_visible_range(95, 10, 100);
    assert_eq!(range, 95..100);
}

#[test]
fn test_calculate_visible_range_empty() {
    let range = calculate_visible_range(0, 10, 0);
    assert_eq!(range, 0..0);
}

#[test]
fn visible_range_starts_past_the_end_when_scrolled_beyond_items() {
    let range = calculate_visible_range(12, 5, 10);
    assert_eq!(range, 12..10);
    assert!(range.is_empty());
}
