use debtmap_tui::detail_page::DetailPage;
use debtmap_tui::nav_state::{NavigationResult, NavigationState};
use debtmap_tui::nav_actions::{
    available_actions, navigate_back, navigate_detail_page, navigate_to_detail, navigate_to_dsm,
    navigate_to_filter_menu, navigate_to_help, navigate_to_search, navigate_to_sort_menu,
};
use debtmap_tui::view_mode::ViewMode;

#[test]
fn nav_actions_test_navigate_to_detail_success() {
    let mut state = NavigationState::new(false);

    let result = navigate_to_detail(&mut state, true, true);
    assert!(result.is_success());
    assert_eq!(state.view_mode, ViewMode::Detail);
    assert_eq!(state.history.len(), 1);
    assert_eq!(state.history[0], ViewMode::List);
}

#[test]
fn nav_actions_test_navigate_to_detail_blocked_no_selection() {
    let mut state = NavigationState::new(false);

    let result = navigate_to_detail(&mut state, true, false);
    assert!(matches!(result, NavigationResult::Blocked { .. }));
    assert_eq!(state.view_mode, ViewMode::List);
    assert!(state.history.is_empty());
}

#[test]
fn nav_actions_test_navigate_to_detail_invalid_from_detail() {
    let mut state = NavigationState::new(false);
    state.view_mode = ViewMode::Detail;

    let result = navigate_to_detail(&mut state, true, true);
    assert!(matches!(result, NavigationResult::Invalid { .. }));
}

#[test]
fn nav_actions_test_navigate_to_search_success() {
    let mut state = NavigationState::new(false);

    let result = navigate_to_search(&mut state);
    assert!(result.is_success());
    assert_eq!(state.view_mode, ViewMode::Search);
}

#[test]
fn nav_actions_test_navigate_to_search_invalid_from_detail() {
    let mut state = NavigationState::new(false);
    state.view_mode = ViewMode::Detail;

    let result = navigate_to_search(&mut state);
    assert!(matches!(result, NavigationResult::Invalid { .. }));
}

#[test]
fn nav_actions_test_navigate_to_dsm_blocked_when_disabled() {
    let mut state = NavigationState::new(false);

    let result = navigate_to_dsm(&mut state);
    assert!(matches!(result, NavigationResult::Blocked { .. }));
}

#[test]
fn nav_actions_test_navigate_to_dsm_success_when_enabled() {
    let mut state = NavigationState::new(true);

    let result = navigate_to_dsm(&mut state);
    assert!(result.is_success());
    assert_eq!(state.view_mode, ViewMode::Dsm);
}

#[test]
fn nav_actions_test_navigate_back_uses_history() {
    let mut state = NavigationState::new(false);

    // Navigate List -> Detail
    navigate_to_detail(&mut state, true, true);
    assert_eq!(state.view_mode, ViewMode::Detail);

    // Navigate Detail -> Help
    navigate_to_help(&mut state);
    assert_eq!(state.view_mode, ViewMode::Help);

    // Back goes to Detail (not List)
    navigate_back(&mut state);
    assert_eq!(state.view_mode, ViewMode::Detail);

    // Back goes to List
    navigate_back(&mut state);
    assert_eq!(state.view_mode, ViewMode::List);
}

#[test]
fn nav_actions_test_navigate_back_blocked_at_root() {
    let mut state = NavigationState::new(false);

    let result = navigate_back(&mut state);
    assert!(matches!(result, NavigationResult::Blocked { .. }));
}

#[test]
fn nav_actions_test_navigate_back_without_history() {
    let mut state = NavigationState::new(false);
    state.view_mode = ViewMode::Detail;

    // No history but not at root - should go to List
    let result = navigate_back(&mut state);
    assert!(result.is_success());
    assert_eq!(state.view_mode, ViewMode::List);
}

#[test]
fn nav_actions_test_navigate_detail_page_blocked_outside_detail() {
    let mut state = NavigationState::new(false);

    let result = navigate_detail_page(&mut state, true);
    assert!(matches!(result, NavigationResult::Blocked { .. }));
}

#[test]
fn nav_actions_test_search_to_detail_flow() {
    let mut state = NavigationState::new(false);

    // Start search
    let result = navigate_to_search(&mut state);
    assert!(result.is_success());
    assert_eq!(state.view_mode, ViewMode::Search);

    // Select search result (goes to detail)
    let result = navigate_to_detail(&mut state, true, true);
    assert!(result.is_success());
    assert_eq!(state.view_mode, ViewMode::Detail);

    // Go back (should return to Search due to history)
    let result = navigate_back(&mut state);
    assert!(result.is_success());
    assert_eq!(state.view_mode, ViewMode::Search);
}

#[test]
fn nav_actions_test_available_actions() {
    let state = NavigationState::new(true);

    let actions = available_actions(&state, true, true);

    // From List with items and selection, should have most actions
    let action_keys: Vec<_> = actions.iter().map(|(k, _)| *k).collect();
    assert!(action_keys.contains(&"Enter"));
    assert!(action_keys.contains(&"/"));
    assert!(action_keys.contains(&"s"));
    assert!(action_keys.contains(&"f"));
    assert!(action_keys.contains(&"m")); // DSM enabled
    assert!(action_keys.contains(&"?"));
    assert!(action_keys.contains(&"q"));
}

#[test]
fn nav_actions_test_available_actions_detail_view() {
    let mut state = NavigationState::new(false);
    state.view_mode = ViewMode::Detail;
    state.history.push(ViewMode::List);

    let actions = available_actions(&state, true, true);

    // From Detail, should have fewer actions
    let action_keys: Vec<_> = actions.iter().map(|(k, _)| *k).collect();
    assert!(!action_keys.contains(&"/")); // No search from detail
    assert!(!action_keys.contains(&"s")); // No sort from detail
    assert!(action_keys.contains(&"Esc")); // Can go back
    assert!(action_keys.contains(&"?")); // Help available
}

#[test]
fn test_navigate_to_sort_menu_success() {
    let mut state = NavigationState::new(false);

    let result = navigate_to_sort_menu(&mut state);
    assert!(result.is_success());
    assert_eq!(state.view_mode, ViewMode::SortMenu);
    assert_eq!(state.history.len(), 1);
}

#[test]
fn test_navigate_to_filter_menu_success() {
    let mut state = NavigationState::new(false);

    let result = navigate_to_filter_menu(&mut state);
    assert!(result.is_success());
    assert_eq!(state.view_mode, ViewMode::FilterMenu);
    assert_eq!(state.history.len(), 1);
}

#[test]
fn test_navigate_to_help_success() {
    let mut state = NavigationState::new(false);

    let result = navigate_to_help(&mut state);
    assert!(result.is_success());
    assert_eq!(state.view_mode, ViewMode::Help);
}

#[test]
fn test_navigate_to_help_blocked_from_help() {
    let mut state = NavigationState::new(false);
    state.view_mode = ViewMode::Help;

    let result = navigate_to_help(&mut state);
    assert!(matches!(result, NavigationResult::Blocked { .. }));
}

#[test]
fn help_is_refused_from_the_sort_menu_as_outside_the_table() {
    let mut state = NavigationState::new(false);
    state.view_mode = ViewMode::SortMenu;
    let result = navigate_to_help(&mut state);
    assert_eq!(result, NavigationResult::Invalid { from: ViewMode::SortMenu, to: ViewMode::Help });
    assert_eq!(state.view_mode, ViewMode::SortMenu);
    assert!(state.history.is_empty());
}

#[test]
fn blocked_navigation_gives_its_reason() {
    let mut state = NavigationState::new(false);
    state.view_mode = ViewMode::Help;
    assert_eq!(navigate_to_help(&mut state), NavigationResult::Blocked { reason: "Already in Help view" });

    let mut state = NavigationState::new(false);
    assert_eq!(navigate_back(&mut state), NavigationResult::Blocked { reason: "Already at root view" });

    let mut state = NavigationState::new(false);
    assert_eq!(navigate_to_detail(&mut state, true, false), NavigationResult::Blocked { reason: "No item selected" });
    assert_eq!(state.view_mode, ViewMode::List);
}

#[test]
fn nav_actions_test_navigate_detail_page() {
    let mut state = NavigationState::new(false);
    state.view_mode = ViewMode::Detail;
    state.detail_page = DetailPage::Overview;

    let result = navigate_detail_page(&mut state, true);
    assert!(result.is_success());
    assert_eq!(state.detail_page, DetailPage::Dependencies);

    let result = navigate_detail_page(&mut state, false);
    assert!(result.is_success());
    assert_eq!(state.detail_page, DetailPage::Overview);
}

#[test]
fn nav_actions_test_typical_user_flow() {
    let mut state = NavigationState::new(true);
    assert_eq!(state.view_mode, ViewMode::List);

    let result = navigate_to_detail(&mut state, true, true);
    assert!(result.is_success());
    assert_eq!(state.view_mode, ViewMode::Detail);

    let result = navigate_detail_page(&mut state, true);
    assert!(result.is_success());
    assert_eq!(state.detail_page, DetailPage::Dependencies);

    let result = navigate_to_help(&mut state);
    assert!(result.is_success());
    assert_eq!(state.view_mode, ViewMode::Help);

    let result = navigate_back(&mut state);
    assert!(result.is_success());
    assert_eq!(state.view_mode, ViewMode::Detail);

    let result = navigate_back(&mut state);
    assert!(result.is_success());
    assert_eq!(state.view_mode, ViewMode::List);
}
