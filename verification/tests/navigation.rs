use debtmap_tui::detail_actions::DetailAction;
use debtmap_tui::detail_page::DetailPage;
use debtmap_tui::item::{DebtType, Location, UnifiedAnalysis, UnifiedDebtItem};
use debtmap_tui::keys::{KeyCode, KeyEvent, KeyModifiers};
use debtmap_tui::list_actions::ListAction;
use debtmap_tui::navigation::{execute_detail_action, execute_list_action, handle_key, move_selection, navigate_back};
use debtmap_tui::results_app::ResultsApp;
use debtmap_tui::view_mode::ViewMode;

fn create_test_item(file: &str, function: &str, line: usize) -> UnifiedDebtItem {
    let mut item = UnifiedDebtItem::new(
        Location::new(file, function, line),
        DebtType::Complexity { cyclomatic: 5, cognitive: 3 },
        5000,
    );
    item.primary_action = "Test".to_string();
    item.rationale = "Test".to_string();
    item.nesting_depth = 1;
    item.function_length = 10;
    item.cyclomatic_complexity = 5;
    item.cognitive_complexity = 3;
    item.is_pure = Some(false);
    item
}

fn create_test_app(item_count: usize) -> ResultsApp {
    let mut analysis = UnifiedAnalysis::new();
    for i in 0..item_count {
        analysis.items.push(create_test_item(&format!("test_{}.rs", i), &format!("fn_{}", i), i + 1));
    }
    ResultsApp::new(analysis)
}

#[test]
fn test_execute_list_action_quit_returns_true() {
    let mut app = create_test_app(5);
    let result = execute_list_action(&mut app, ListAction::Quit).unwrap();
    assert!(result, "Quit action should return true");
}

#[test]
fn test_execute_list_action_move_down_increments_selection() {
    let mut app = create_test_app(5);
    assert_eq!(app.list().selected_index(), 0);
    execute_list_action(&mut app, ListAction::MoveDown).unwrap();
    assert_eq!(app.list().selected_index(), 1);
    execute_list_action(&mut app, ListAction::MoveDown).unwrap();
    assert_eq!(app.list().selected_index(), 2);
}

#[test]
fn test_execute_list_action_move_up_decrements_selection() {
    let mut app = create_test_app(5);
    execute_list_action(&mut app, ListAction::MoveDown).unwrap();
    execute_list_action(&mut app, ListAction::MoveDown).unwrap();
    assert_eq!(app.list().selected_index(), 2);
    execute_list_action(&mut app, ListAction::MoveUp).unwrap();
    assert_eq!(app.list().selected_index(), 1);
}

#[test]
fn test_execute_list_action_move_up_at_top_stays_at_zero() {
    let mut app = create_test_app(5);
    assert_eq!(app.list().selected_index(), 0);
    execute_list_action(&mut app, ListAction::MoveUp).unwrap();
    assert_eq!(app.list().selected_index(), 0);
}

#[test]
fn test_execute_list_action_move_down_at_bottom_stays_at_last() {
    let mut app = create_test_app(3);
    execute_list_action(&mut app, ListAction::JumpToBottom).unwrap();
    let last_idx = app.list().selected_index();
    execute_list_action(&mut app, ListAction::MoveDown).unwrap();
    assert_eq!(app.list().selected_index(), last_idx);
}

#[test]
fn test_execute_list_action_jump_to_top() {
    let mut app = create_test_app(5);
    execute_list_action(&mut app, ListAction::MoveDown).unwrap();
    execute_list_action(&mut app, ListAction::MoveDown).unwrap();
    assert_eq!(app.list().selected_index(), 2);
    execute_list_action(&mut app, ListAction::JumpToTop).unwrap();
    assert_eq!(app.list().selected_index(), 0);
    assert_eq!(app.list().scroll_offset(), 0);
}

#[test]
fn test_execute_list_action_jump_to_bottom() {
    let mut app = create_test_app(5);
    assert_eq!(app.list().selected_index(), 0);
    execute_list_action(&mut app, ListAction::JumpToBottom).unwrap();
    let expected_last = app.item_count().saturating_sub(1);
    assert_eq!(app.list().selected_index(), expected_last);
}

#[test]
fn test_execute_list_action_page_down() {
    let mut app = create_test_app(50);
    assert_eq!(app.list().selected_index(), 0);
    execute_list_action(&mut app, ListAction::PageDown).unwrap();
    assert_eq!(app.list().selected_index(), 20);
}

#[test]
fn test_execute_list_action_page_up() {
    let mut app = create_test_app(50);
    for _ in 0..25 {
        execute_list_action(&mut app, ListAction::MoveDown).unwrap();
    }
    assert_eq!(app.list().selected_index(), 25);
    execute_list_action(&mut app, ListAction::PageUp).unwrap();
    assert_eq!(app.list().selected_index(), 5);
}

#[test]
fn test_execute_list_action_enter_detail_changes_view_mode() {
    let mut app = create_test_app(5);
    assert_eq!(app.nav().view_mode, ViewMode::List);
    execute_list_action(&mut app, ListAction::EnterDetail).unwrap();
    assert_eq!(app.nav().view_mode, ViewMode::Detail);
}

#[test]
fn test_execute_list_action_enter_search_changes_view_mode() {
    let mut app = create_test_app(5);
    assert_eq!(app.nav().view_mode, ViewMode::List);
    execute_list_action(&mut app, ListAction::EnterSearch).unwrap();
    assert_eq!(app.nav().view_mode, ViewMode::Search);
}

#[test]
fn test_execute_list_action_open_sort_menu_changes_view_mode() {
    let mut app = create_test_app(5);
    assert_eq!(app.nav().view_mode, ViewMode::List);
    execute_list_action(&mut app, ListAction::OpenSortMenu).unwrap();
    assert_eq!(app.nav().view_mode, ViewMode::SortMenu);
}

#[test]
fn test_execute_list_action_open_filter_menu_changes_view_mode() {
    let mut app = create_test_app(5);
    assert_eq!(app.nav().view_mode, ViewMode::List);
    execute_list_action(&mut app, ListAction::OpenFilterMenu).unwrap();
    assert_eq!(app.nav().view_mode, ViewMode::FilterMenu);
}

#[test]
fn test_execute_list_action_show_help_changes_view_mode() {
    let mut app = create_test_app(5);
    assert_eq!(app.nav().view_mode, ViewMode::List);
    execute_list_action(&mut app, ListAction::ShowHelp).unwrap();
    assert_eq!(app.nav().view_mode, ViewMode::Help);
}

#[test]
fn test_execute_list_action_non_quit_returns_false() {
    let mut app = create_test_app(5);
    let actions = [
        ListAction::MoveUp,
        ListAction::MoveDown,
        ListAction::JumpToTop,
        ListAction::JumpToBottom,
        ListAction::PageUp,
        ListAction::PageDown,
        ListAction::EnterDetail,
        ListAction::EnterSearch,
        ListAction::OpenSortMenu,
        ListAction::OpenFilterMenu,
        ListAction::ShowHelp,
    ];
    for action in actions {
        let result = execute_list_action(&mut app, action).unwrap();
        assert!(!result, "Action {:?} should return false", action);
        app.nav_mut().view_mode = ViewMode::List;
    }
}

#[test]
fn test_execute_list_action_on_empty_list() {
    let mut app = create_test_app(0);
    assert_eq!(app.item_count(), 0);
    let result = execute_list_action(&mut app, ListAction::MoveDown).unwrap();
    assert!(!result);
    let result = execute_list_action(&mut app, ListAction::MoveUp).unwrap();
    assert!(!result);
    let result = execute_list_action(&mut app, ListAction::JumpToTop).unwrap();
    assert!(!result);
    let result = execute_list_action(&mut app, ListAction::JumpToBottom).unwrap();
    assert!(!result);
}

#[test]
fn test_execute_detail_action_navigate_back_returns_to_list() {
    let mut app = create_test_app(5);
    app.nav_mut().push_and_set_view(ViewMode::Detail);
    assert_eq!(app.nav().view_mode, ViewMode::Detail);
    execute_detail_action(&mut app, DetailAction::NavigateBack).unwrap();
    assert_eq!(app.nav().view_mode, ViewMode::List);
}

#[test]
fn test_execute_detail_action_move_selection_changes_index() {
    let mut app = create_test_app(10);
    app.nav_mut().push_and_set_view(ViewMode::Detail);
    assert_eq!(app.list().selected_index(), 0);
    execute_detail_action(&mut app, DetailAction::MoveSelection(1)).unwrap();
    assert_eq!(app.list().selected_index(), 1);
    execute_detail_action(&mut app, DetailAction::MoveSelection(1)).unwrap();
    assert_eq!(app.list().selected_index(), 2);
    execute_detail_action(&mut app, DetailAction::MoveSelection(-1)).unwrap();
    assert_eq!(app.list().selected_index(), 1);
}

#[test]
fn test_execute_detail_action_show_help_from_detail() {
    let mut app = create_test_app(5);
    app.nav_mut().push_and_set_view(ViewMode::Detail);
    assert_eq!(app.nav().view_mode, ViewMode::Detail);
    execute_detail_action(&mut app, DetailAction::ShowHelp).unwrap();
    assert_eq!(app.nav().view_mode, ViewMode::Help);
}

#[test]
fn test_execute_detail_action_non_quit_returns_false() {
    let mut app = create_test_app(5);
    app.nav_mut().push_and_set_view(ViewMode::Detail);
    let actions = [DetailAction::NavigateBack, DetailAction::MoveSelection(1), DetailAction::ShowHelp];
    for action in actions {
        let result = execute_detail_action(&mut app, action).unwrap();
        assert!(!result, "Action {:?} should return false", action);
        app.nav_mut().view_mode = ViewMode::Detail;
    }
}

#[test]
fn test_execute_detail_action_scroll_up() {
    let mut app = create_test_app(5);
    app.nav_mut().push_and_set_view(ViewMode::Detail);
    app.nav_mut().detail_scroll.scroll_down();
    app.nav_mut().detail_scroll.scroll_down();
    let result = execute_detail_action(&mut app, DetailAction::ScrollUp).unwrap();
    assert!(!result);
}

#[test]
fn test_execute_detail_action_scroll_down() {
    let mut app = create_test_app(5);
    app.nav_mut().push_and_set_view(ViewMode::Detail);
    let result = execute_detail_action(&mut app, DetailAction::ScrollDown).unwrap();
    assert!(!result);
}

#[test]
fn test_execute_detail_action_scroll_half_page_up() {
    let mut app = create_test_app(5);
    app.nav_mut().push_and_set_view(ViewMode::Detail);
    for _ in 0..20 {
        app.nav_mut().detail_scroll.scroll_down();
    }
    let result = execute_detail_action(&mut app, DetailAction::ScrollHalfPageUp).unwrap();
    assert!(!result);
}

#[test]
fn test_execute_detail_action_scroll_half_page_down() {
    let mut app = create_test_app(5);
    app.nav_mut().push_and_set_view(ViewMode::Detail);
    let result = execute_detail_action(&mut app, DetailAction::ScrollHalfPageDown).unwrap();
    assert!(!result);
}

#[test]
fn test_execute_detail_action_scroll_page_up() {
    let mut app = create_test_app(5);
    app.nav_mut().push_and_set_view(ViewMode::Detail);
    let result = execute_detail_action(&mut app, DetailAction::ScrollPageUp).unwrap();
    assert!(!result);
}

#[test]
fn test_execute_detail_action_scroll_page_down() {
    let mut app = create_test_app(5);
    app.nav_mut().push_and_set_view(ViewMode::Detail);
    let result = execute_detail_action(&mut app, DetailAction::ScrollPageDown).unwrap();
    assert!(!result);
}

#[test]
fn test_execute_detail_action_scroll_to_top() {
    let mut app = create_test_app(5);
    app.nav_mut().push_and_set_view(ViewMode::Detail);
    for _ in 0..10 {
        app.nav_mut().detail_scroll.scroll_down();
    }
    let result = execute_detail_action(&mut app, DetailAction::ScrollToTop).unwrap();
    assert!(!result);
}

#[test]
fn test_execute_detail_action_scroll_to_bottom() {
    let mut app = create_test_app(5);
    app.nav_mut().push_and_set_view(ViewMode::Detail);
    let result = execute_detail_action(&mut app, DetailAction::ScrollToBottom).unwrap();
    assert!(!result);
}

#[test]
fn test_execute_detail_action_next_page() {
    let mut app = create_test_app(5);
    app.nav_mut().push_and_set_view(ViewMode::Detail);
    let result = execute_detail_action(&mut app, DetailAction::NextPage).unwrap();
    assert!(!result);
}

#[test]
fn test_execute_detail_action_prev_page() {
    let mut app = create_test_app(5);
    app.nav_mut().push_and_set_view(ViewMode::Detail);
    execute_detail_action(&mut app, DetailAction::NextPage).unwrap();
    let result = execute_detail_action(&mut app, DetailAction::PrevPage).unwrap();
    assert!(!result);
}

#[test]
fn test_execute_detail_action_jump_to_page() {
    let mut app = create_test_app(5);
    app.nav_mut().push_and_set_view(ViewMode::Detail);
    let result = execute_detail_action(&mut app, DetailAction::JumpToPage(DetailPage::Overview)).unwrap();
    assert!(!result);
    assert_eq!(app.nav().detail_page, DetailPage::Overview);
}

#[test]
fn test_execute_detail_action_copy_page_sets_status() {
    let mut app = create_test_app(5);
    app.nav_mut().push_and_set_view(ViewMode::Detail);
    assert!(app.selected_item().is_some());
    let result = execute_detail_action(&mut app, DetailAction::CopyPage).unwrap();
    assert!(!result);
    let status = app.status_message();
    assert!(status.is_some(), "CopyPage should set a status message");
}

#[test]
fn test_execute_detail_action_copy_page_with_no_selection() {
    let mut app = create_test_app(0);
    app.nav_mut().push_and_set_view(ViewMode::Detail);
    assert!(app.selected_item().is_none());
    let result = execute_detail_action(&mut app, DetailAction::CopyPage).unwrap();
    assert!(!result);
}

#[test]
fn test_execute_detail_action_copy_item_as_llm_sets_status() {
    let mut app = create_test_app(5);
    app.nav_mut().push_and_set_view(ViewMode::Detail);
    assert!(app.selected_item().is_some());
    let result = execute_detail_action(&mut app, DetailAction::CopyItemAsLlm).unwrap();
    assert!(!result);
    let status = app.status_message();
    assert!(status.is_some(), "CopyItemAsLlm should set a status message");
}

#[test]
fn test_execute_detail_action_copy_item_as_llm_with_no_selection() {
    let mut app = create_test_app(0);
    app.nav_mut().push_and_set_view(ViewMode::Detail);
    assert!(app.selected_item().is_none());
    let result = execute_detail_action(&mut app, DetailAction::CopyItemAsLlm).unwrap();
    assert!(!result);
}

#[test]
fn test_execute_detail_action_open_in_editor_with_no_selection() {
    let mut app = create_test_app(0);
    app.nav_mut().push_and_set_view(ViewMode::Detail);
    assert!(app.selected_item().is_none());
    let result = execute_detail_action(&mut app, DetailAction::OpenInEditor).unwrap();
    assert!(!result);
}

#[test]
fn test_move_selection_positive_delta() {
    let mut app = create_test_app(10);
    assert_eq!(app.list().selected_index(), 0);
    move_selection(&mut app, 3);
    assert_eq!(app.list().selected_index(), 3);
}

#[test]
fn test_move_selection_negative_delta() {
    let mut app = create_test_app(10);
    move_selection(&mut app, 5);
    assert_eq!(app.list().selected_index(), 5);
    move_selection(&mut app, -2);
    assert_eq!(app.list().selected_index(), 3);
}

#[test]
fn test_move_selection_clamps_at_zero() {
    let mut app = create_test_app(10);
    assert_eq!(app.list().selected_index(), 0);
    move_selection(&mut app, -5);
    assert_eq!(app.list().selected_index(), 0);
}

#[test]
fn test_move_selection_clamps_at_max() {
    let mut app = create_test_app(5);
    let max_idx = app.item_count().saturating_sub(1);
    move_selection(&mut app, 100);
    assert_eq!(app.list().selected_index(), max_idx);
}

#[test]
fn test_move_selection_empty_list_no_panic() {
    let mut app = create_test_app(0);
    move_selection(&mut app, 1);
    move_selection(&mut app, -1);
}

#[test]
fn test_navigate_back_with_history() {
    let mut app = create_test_app(5);
    app.nav_mut().push_and_set_view(ViewMode::Detail);
    assert_eq!(app.nav().view_mode, ViewMode::Detail);
    navigate_back(&mut app);
    assert_eq!(app.nav().view_mode, ViewMode::List);
}

#[test]
fn test_navigate_back_without_history_at_root() {
    let mut app = create_test_app(5);
    assert_eq!(app.nav().view_mode, ViewMode::List);
    navigate_back(&mut app);
    assert_eq!(app.nav().view_mode, ViewMode::List);
}

#[test]
fn test_navigate_back_without_history_not_at_root() {
    let mut app = create_test_app(5);
    app.nav_mut().view_mode = ViewMode::Detail;
    navigate_back(&mut app);
    assert_eq!(app.nav().view_mode, ViewMode::List);
}

#[test]
fn test_handle_key_q_quits_from_list() {
    let mut app = create_test_app(5);
    let key = KeyEvent::new(KeyCode::Char('q'), KeyModifiers::none());
    let result = handle_key(&mut app, key).unwrap();
    assert!(result, "'q' should quit the application");
}

#[test]
fn test_handle_key_navigation_in_list_view() {
    let mut app = create_test_app(5);
    assert_eq!(app.nav().view_mode, ViewMode::List);
    assert_eq!(app.list().selected_index(), 0);
    let j_key = KeyEvent::new(KeyCode::Char('j'), KeyModifiers::none());
    handle_key(&mut app, j_key).unwrap();
    assert_eq!(app.list().selected_index(), 1);
    let k_key = KeyEvent::new(KeyCode::Char('k'), KeyModifiers::none());
    handle_key(&mut app, k_key).unwrap();
    assert_eq!(app.list().selected_index(), 0);
}

#[test]
fn test_handle_key_enter_to_detail_view() {
    let mut app = create_test_app(5);
    assert_eq!(app.nav().view_mode, ViewMode::List);
    let enter_key = KeyEvent::new(KeyCode::Enter, KeyModifiers::none());
    handle_key(&mut app, enter_key).unwrap();
    assert_eq!(app.nav().view_mode, ViewMode::Detail);
}

#[test]
fn test_handle_key_esc_from_detail_returns_to_list() {
    let mut app = create_test_app(5);
    app.nav_mut().push_and_set_view(ViewMode::Detail);
    let esc_key = KeyEvent::new(KeyCode::Esc, KeyModifiers::none());
    handle_key(&mut app, esc_key).unwrap();
    assert_eq!(app.nav().view_mode, ViewMode::List);
}

#[test]
fn test_handle_key_any_key_exits_help() {
    let mut app = create_test_app(5);
    app.nav_mut().push_and_set_view(ViewMode::Help);
    assert_eq!(app.nav().view_mode, ViewMode::Help);
    let key = KeyEvent::new(KeyCode::Char('x'), KeyModifiers::none());
    handle_key(&mut app, key).unwrap();
    assert_eq!(app.nav().view_mode, ViewMode::List);
}
