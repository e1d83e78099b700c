use debtmap_tui::detail_page::DetailPage;
use debtmap_tui::nav_state::{
    available_actions, can_enter_detail, can_enter_dsm, can_enter_help, can_enter_search, can_go_back,
    is_valid_transition, navigate_back, navigate_detail_page, navigate_to_detail, navigate_to_dsm,
    navigate_to_filter_menu, navigate_to_help, navigate_to_search, navigate_to_sort_menu, valid_destinations,
    NavigationResult, NavigationState,
};
use debtmap_tui::view_mode::ViewMode;

#[test]
fn test_list_to_detail_valid() {
    assert!(is_valid_transition(ViewMode::List, ViewMode::Detail));
}

#[test]
fn test_detail_to_search_invalid() {
    // Can't go directly from Detail to Search
    assert!(!is_valid_transition(ViewMode::Detail, ViewMode::Search));
}

#[test]
fn test_valid_destinations_from_list() {
    let destinations = valid_destinations(ViewMode::List);
    assert!(destinations.contains(&ViewMode::Detail));
    assert!(destinations.contains(&ViewMode::Search));
    assert!(destinations.contains(&ViewMode::Help));
    assert!(destinations.contains(&ViewMode::SortMenu));
    assert!(destinations.contains(&ViewMode::FilterMenu));
    assert!(destinations.contains(&ViewMode::Dsm));
}

#[test]
fn test_valid_destinations_from_detail() {
    let destinations = valid_destinations(ViewMode::Detail);
    assert!(destinations.contains(&ViewMode::List));
    assert!(destinations.contains(&ViewMode::Help));
    // Detail cannot go to Search, SortMenu, FilterMenu, or Dsm
    assert!(!destinations.contains(&ViewMode::Search));
    assert!(!destinations.contains(&ViewMode::SortMenu));
    assert!(!destinations.contains(&ViewMode::FilterMenu));
    assert!(!destinations.contains(&ViewMode::Dsm));
}

#[test]
fn test_can_enter_detail_requires_selection() {
    // No items - can't enter
    assert!(!can_enter_detail(ViewMode::List, false, false));

    // Items but no selection - can't enter
    assert!(!can_enter_detail(ViewMode::List, true, false));

    // Items and selection - can enter
    assert!(can_enter_detail(ViewMode::List, true, true));

    // From Search with selection - can enter
    assert!(can_enter_detail(ViewMode::Search, true, true));

    // From Detail - cannot re-enter
    assert!(!can_enter_detail(ViewMode::Detail, true, true));
}

#[test]
fn test_can_enter_dsm_requires_feature() {
    // DSM disabled
    assert!(!can_enter_dsm(ViewMode::List, false));

    // DSM enabled
    assert!(can_enter_dsm(ViewMode::List, true));

    // DSM enabled but wrong mode
    assert!(!can_enter_dsm(ViewMode::Detail, true));
}

#[test]
fn test_can_enter_search_only_from_list() {
    assert!(can_enter_search(ViewMode::List));
    assert!(!can_enter_search(ViewMode::Detail));
    assert!(!can_enter_search(ViewMode::Search));
}

#[test]
fn test_can_enter_help_not_from_help() {
    assert!(can_enter_help(ViewMode::List));
    assert!(can_enter_help(ViewMode::Detail));
    assert!(can_enter_help(ViewMode::Search));
    assert!(can_enter_help(ViewMode::Dsm));
    assert!(!can_enter_help(ViewMode::Help));
}

#[test]
fn test_can_go_back_with_history() {
    // No history, at root
    assert!(!can_go_back(ViewMode::List, 0));

    // No history, not at root
    assert!(can_go_back(ViewMode::Detail, 0));

    // With history
    assert!(can_go_back(ViewMode::List, 1));
    assert!(can_go_back(ViewMode::Detail, 1));
}

#[test]
fn test_guards_are_pure() {
    // Same input → same output (deterministic)
    let r1 = can_enter_detail(ViewMode::List, true, true);
    let r2 = can_enter_detail(ViewMode::List, true, true);
    assert_eq!(r1, r2);

    let r3 = can_enter_dsm(ViewMode::List, true);
    let r4 = can_enter_dsm(ViewMode::List, true);
    assert_eq!(r3, r4);
}

#[test]
fn nav_state_test_navigate_to_detail_success() {
    let mut state = NavigationState::new(false);

    let result = navigate_to_detail(&mut state, true, true);
    assert!(result.is_success());
    assert_eq!(state.view_mode, ViewMode::Detail);
    assert_eq!(state.history.len(), 1);
    assert_eq!(state.history[0], ViewMode::List);
}

#[test]
fn nav_state_test_navigate_to_detail_blocked_no_selection() {
    let mut state = NavigationState::new(false);

    let result = navigate_to_detail(&mut state, true, false);
    assert!(matches!(result, NavigationResult::Blocked { .. }));
    assert_eq!(state.view_mode, ViewMode::List);
    assert!(state.history.is_empty());
}

#[test]
fn nav_state_test_navigate_to_detail_invalid_from_detail() {
    let mut state = NavigationState::new(false);
    state.view_mode = ViewMode::Detail;

    let result = navigate_to_detail(&mut state, true, true);
    assert!(matches!(result, NavigationResult::Invalid { .. }));
}

#[test]
fn nav_state_test_navigate_to_search_success() {
    let mut state = NavigationState::new(false);

    let result = navigate_to_search(&mut state);
    assert!(result.is_success());
    assert_eq!(state.view_mode, ViewMode::Search);
}

#[test]
fn nav_state_test_navigate_to_search_invalid_from_detail() {
    let mut state = NavigationState::new(false);
    state.view_mode = ViewMode::Detail;

    let result = navigate_to_search(&mut state);
    assert!(matches!(result, NavigationResult::Invalid { .. }));
}

#[test]
fn nav_state_test_navigate_to_dsm_blocked_when_disabled() {
    let mut state = NavigationState::new(false);

    let result = navigate_to_dsm(&mut state);
    assert!(matches!(result, NavigationResult::Blocked { .. }));
}

#[test]
fn nav_state_test_navigate_to_dsm_success_when_enabled() {
    let mut state = NavigationState::new(true);

    let result = navigate_to_dsm(&mut state);
    assert!(result.is_success());
    assert_eq!(state.view_mode, ViewMode::Dsm);
}

#[test]
fn nav_state_test_navigate_back_uses_history() {
    let mut state = NavigationState::new(false);

    // Navigate List → Detail
    navigate_to_detail(&mut state, true, true);
    assert_eq!(state.view_mode, ViewMode::Detail);

    // Navigate Detail → Help
    navigate_to_help(&mut state);
    assert_eq!(state.view_mode, ViewMode::Help);

    // Back goes to Detail (not List)
    navigate_back(&mut state);
    assert_eq!(state.view_mode, ViewMode::Detail);

    // Back goes to List
    navigate_back(&mut state);
    assert_eq!(state.view_mode, ViewMode::List);
}

#[test]
fn nav_state_test_navigate_back_blocked_at_root() {
    let mut state = NavigationState::new(false);

    let result = navigate_back(&mut state);
    assert!(matches!(result, NavigationResult::Blocked { .. }));
}

#[test]
fn nav_state_test_navigate_back_without_history() {
    let mut state = NavigationState::new(false);
    state.view_mode = ViewMode::Detail;

    // No history but not at root - should go to List
    let result = navigate_back(&mut state);
    assert!(result.is_success());
    assert_eq!(state.view_mode, ViewMode::List);
}

#[test]
fn nav_state_test_navigate_detail_page_blocked_outside_detail() {
    let mut state = NavigationState::new(false);

    let result = navigate_detail_page(&mut state, true);
    assert!(matches!(result, NavigationResult::Blocked { .. }));
}

#[test]
fn nav_state_test_search_to_detail_flow() {
    let mut state = NavigationState::new(false);

    // Start search
    let result = navigate_to_search(&mut state);
    assert!(result.is_success());
    assert_eq!(state.view_mode, ViewMode::Search);

    // Select search result (goes to detail)
    let result = navigate_to_detail(&mut state, true, true);
    assert!(result.is_success());
    assert_eq!(state.view_mode, ViewMode::Detail);

    // Go back (should return to Search due to history)
    let result = navigate_back(&mut state);
    assert!(result.is_success());
    assert_eq!(state.view_mode, ViewMode::Search);
}

#[test]
fn nav_state_test_available_actions() {
    let state = NavigationState::new(true);

    let actions = available_actions(&state, true, true);

    // From List with items and selection, should have most actions
    let action_keys: Vec<_> = actions.iter().map(|(k, _)| *k).collect();
    assert!(action_keys.contains(&"Enter"));
    assert!(action_keys.contains(&"/"));
    assert!(action_keys.contains(&"s"));
    assert!(action_keys.contains(&"f"));
    assert!(action_keys.contains(&"m")); // DSM enabled
    assert!(action_keys.contains(&"?"));
    assert!(action_keys.contains(&"q"));
}

#[test]
fn nav_state_test_available_actions_detail_view() {
    let mut state = NavigationState::new(false);
    state.view_mode = ViewMode::Detail;
    state.history.push(ViewMode::List);

    let actions = available_actions(&state, true, true);

    // From Detail, should have fewer actions
    let action_keys: Vec<_> = actions.iter().map(|(k, _)| *k).collect();
    assert!(!action_keys.contains(&"/")); // No search from detail
    assert!(!action_keys.contains(&"s")); // No sort from detail
    assert!(action_keys.contains(&"Esc")); // Can go back
    assert!(action_keys.contains(&"?")); // Help available
}

#[test]
fn test_push_and_set_view() {
    let mut state = NavigationState::new(true);
    assert_eq!(state.view_mode, ViewMode::List);
    assert!(state.history.is_empty());

    state.push_and_set_view(ViewMode::Detail);
    assert_eq!(state.view_mode, ViewMode::Detail);
    assert_eq!(state.history.len(), 1);
    assert_eq!(state.history[0], ViewMode::List);

    state.push_and_set_view(ViewMode::Help);
    assert_eq!(state.view_mode, ViewMode::Help);
    assert_eq!(state.history.len(), 2);
}

#[test]
fn test_go_back_with_history() {
    let mut state = NavigationState::new(true);
    state.push_and_set_view(ViewMode::Detail);
    state.push_and_set_view(ViewMode::Help);

    let result = state.go_back();
    assert_eq!(result, Some(ViewMode::Detail));
    assert_eq!(state.view_mode, ViewMode::Detail);

    let result = state.go_back();
    assert_eq!(result, Some(ViewMode::List));
    assert_eq!(state.view_mode, ViewMode::List);

    let result = state.go_back();
    assert_eq!(result, None);
}

#[test]
fn test_clear_history() {
    let mut state = NavigationState::new(true);
    state.push_and_set_view(ViewMode::Detail);
    state.push_and_set_view(ViewMode::Help);
    assert_eq!(state.history.len(), 2);

    state.clear_history();
    assert!(state.history.is_empty());
}

#[test]
fn test_dsm_scroll_default() {
    let state = NavigationState::new(true);
    assert_eq!(state.dsm_scroll_x, 0);
    assert_eq!(state.dsm_scroll_y, 0);
}

#[test]
fn test_reset_dsm_scroll() {
    let mut state = NavigationState::new(true);
    state.dsm_scroll_x = 10;
    state.dsm_scroll_y = 20;

    state.reset_dsm_scroll();
    assert_eq!(state.dsm_scroll_x, 0);
    assert_eq!(state.dsm_scroll_y, 0);
}

#[test]
fn nav_state_test_navigate_detail_page() {
    let mut state = NavigationState::new(false);
    state.view_mode = ViewMode::Detail;
    state.detail_page = DetailPage::Overview;

    let result = navigate_detail_page(&mut state, true);
    assert!(result.is_success());
    assert_eq!(state.detail_page, DetailPage::Dependencies);

    let result = navigate_detail_page(&mut state, false);
    assert!(result.is_success());
    assert_eq!(state.detail_page, DetailPage::Overview);
}

#[test]
fn nav_state_test_typical_user_flow() {
    let mut state = NavigationState::new(true);
    assert_eq!(state.view_mode, ViewMode::List);

    let result = navigate_to_detail(&mut state, true, true);
    assert!(result.is_success());
    assert_eq!(state.view_mode, ViewMode::Detail);

    let result = navigate_detail_page(&mut state, true);
    assert!(result.is_success());
    assert_eq!(state.detail_page, DetailPage::Dependencies);

    let result = navigate_to_help(&mut state);
    assert!(result.is_success());
    assert_eq!(state.view_mode, ViewMode::Help);

    let result = navigate_back(&mut state);
    assert!(result.is_success());
    assert_eq!(state.view_mode, ViewMode::Detail);

    let result = navigate_back(&mut state);
    assert!(result.is_success());
    assert_eq!(state.view_mode, ViewMode::List);
}

#[test]
fn detail_page_navigation_cyclic() {
    for forward_count in 0usize..20 {
        let mut state = NavigationState::new(false);
        state.view_mode = ViewMode::Detail;
        let initial_page = state.detail_page;
        for _ in 0..forward_count {
            let _ = navigate_detail_page(&mut state, true);
        }
        for _ in 0..forward_count {
            let _ = navigate_detail_page(&mut state, false);
        }
        assert_eq!(state.detail_page, initial_page);
    }
}

#[test]
fn detail_page_steps_walk_the_cycle() {
    let mut state = NavigationState::new(false);
    state.view_mode = ViewMode::Detail;
    let mut seen = vec![state.detail_page];
    for _ in 0..6 {
        navigate_detail_page(&mut state, true);
        seen.push(state.detail_page);
    }
    assert_eq!(
        seen,
        vec![
            DetailPage::Overview,
            DetailPage::Dependencies,
            DetailPage::GitContext,
            DetailPage::Patterns,
            DetailPage::DataFlow,
            DetailPage::Responsibilities,
            DetailPage::Overview,
        ]
    );
}

#[test]
fn detail_page_steps_from_score_breakdown() {
    let mut state = NavigationState::new(false);
    state.view_mode = ViewMode::Detail;
    state.detail_page = DetailPage::ScoreBreakdown;
    navigate_detail_page(&mut state, true);
    assert_eq!(state.detail_page, DetailPage::Dependencies);
    state.detail_page = DetailPage::ScoreBreakdown;
    navigate_detail_page(&mut state, false);
    assert_eq!(state.detail_page, DetailPage::Overview);
    navigate_detail_page(&mut state, false);
    assert_eq!(state.detail_page, DetailPage::Responsibilities);
}
