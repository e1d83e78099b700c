use debtmap_tui::keys::{KeyCode, KeyEvent, KeyModifiers};
use debtmap_tui::list_actions::{determine_list_action, ListAction, ListActionContext};

fn key(code: KeyCode) -> KeyEvent {
    KeyEvent::new(code, KeyModifiers::none())
}

#[test]
fn quit_with_q() {
    let ctx = ListActionContext::empty();
    assert_eq!(
        determine_list_action(key(KeyCode::Char('q')), ctx),
        Some(ListAction::Quit)
    );
}

#[test]
fn quit_works_with_any_context() {
    // Quit should work regardless of state
    for ctx in [
        ListActionContext::empty(),
        ListActionContext::with_selection(),
    ] {
        assert_eq!(
            determine_list_action(key(KeyCode::Char('q')), ctx),
            Some(ListAction::Quit)
        );
    }
}

#[test]
fn move_up_with_up_arrow() {
    let ctx = ListActionContext::with_selection();
    assert_eq!(
        determine_list_action(key(KeyCode::Up), ctx),
        Some(ListAction::MoveUp)
    );
}

#[test]
fn move_up_with_k() {
    let ctx = ListActionContext::with_selection();
    assert_eq!(
        determine_list_action(key(KeyCode::Char('k')), ctx),
        Some(ListAction::MoveUp)
    );
}

#[test]
fn move_down_with_down_arrow() {
    let ctx = ListActionContext::with_selection();
    assert_eq!(
        determine_list_action(key(KeyCode::Down), ctx),
        Some(ListAction::MoveDown)
    );
}

#[test]
fn move_down_with_j() {
    let ctx = ListActionContext::with_selection();
    assert_eq!(
        determine_list_action(key(KeyCode::Char('j')), ctx),
        Some(ListAction::MoveDown)
    );
}

#[test]
fn jump_to_top_with_g() {
    let ctx = ListActionContext::with_selection();
    assert_eq!(
        determine_list_action(key(KeyCode::Char('g')), ctx),
        Some(ListAction::JumpToTop)
    );
}

#[test]
fn jump_to_top_with_home() {
    let ctx = ListActionContext::with_selection();
    assert_eq!(
        determine_list_action(key(KeyCode::Home), ctx),
        Some(ListAction::JumpToTop)
    );
}

#[test]
fn jump_to_bottom_with_end() {
    let ctx = ListActionContext::with_selection();
    assert_eq!(
        determine_list_action(key(KeyCode::End), ctx),
        Some(ListAction::JumpToBottom)
    );
}

#[test]
fn page_up_key() {
    let ctx = ListActionContext::with_selection();
    assert_eq!(
        determine_list_action(key(KeyCode::PageUp), ctx),
        Some(ListAction::PageUp)
    );
}

#[test]
fn page_down_key() {
    let ctx = ListActionContext::with_selection();
    assert_eq!(
        determine_list_action(key(KeyCode::PageDown), ctx),
        Some(ListAction::PageDown)
    );
}

#[test]
fn toggle_grouping_with_shift_g() {
    let ctx = ListActionContext::with_selection();
    assert_eq!(
        determine_list_action(key(KeyCode::Char('G')), ctx),
        Some(ListAction::ToggleGrouping)
    );
}

#[test]
fn enter_detail_requires_selection() {
    // Without selection - no action
    let empty = ListActionContext::empty();
    assert_eq!(determine_list_action(key(KeyCode::Enter), empty), None);

    // With items but no selection - no action
    let items_only = ListActionContext {
        has_items: true,
        has_selection: false,
    };
    assert_eq!(determine_list_action(key(KeyCode::Enter), items_only), None);

    // With selection - action
    let with_sel = ListActionContext::with_selection();
    assert_eq!(
        determine_list_action(key(KeyCode::Enter), with_sel),
        Some(ListAction::EnterDetail)
    );
}

#[test]
fn enter_search_with_slash() {
    let ctx = ListActionContext::with_selection();
    assert_eq!(
        determine_list_action(key(KeyCode::Char('/')), ctx),
        Some(ListAction::EnterSearch)
    );
}

#[test]
fn open_sort_menu_with_s() {
    let ctx = ListActionContext::with_selection();
    assert_eq!(
        determine_list_action(key(KeyCode::Char('s')), ctx),
        Some(ListAction::OpenSortMenu)
    );
}

#[test]
fn open_filter_menu_with_f() {
    let ctx = ListActionContext::with_selection();
    assert_eq!(
        determine_list_action(key(KeyCode::Char('f')), ctx),
        Some(ListAction::OpenFilterMenu)
    );
}

#[test]
fn show_help_with_question_mark() {
    let ctx = ListActionContext::with_selection();
    assert_eq!(
        determine_list_action(key(KeyCode::Char('?')), ctx),
        Some(ListAction::ShowHelp)
    );
}

#[test]
fn copy_path_requires_selection() {
    // Without selection
    let empty = ListActionContext::empty();
    assert_eq!(determine_list_action(key(KeyCode::Char('c')), empty), None);

    // With selection
    let with_sel = ListActionContext::with_selection();
    assert_eq!(
        determine_list_action(key(KeyCode::Char('c')), with_sel),
        Some(ListAction::CopyPath)
    );
}

#[test]
fn open_in_editor_with_e_requires_selection() {
    // Without selection
    let empty = ListActionContext::empty();
    assert_eq!(determine_list_action(key(KeyCode::Char('e')), empty), None);

    // With selection
    let with_sel = ListActionContext::with_selection();
    assert_eq!(
        determine_list_action(key(KeyCode::Char('e')), with_sel),
        Some(ListAction::OpenInEditor)
    );
}

#[test]
fn open_in_editor_with_o_requires_selection() {
    // Without selection
    let empty = ListActionContext::empty();
    assert_eq!(determine_list_action(key(KeyCode::Char('o')), empty), None);

    // With selection
    let with_sel = ListActionContext::with_selection();
    assert_eq!(
        determine_list_action(key(KeyCode::Char('o')), with_sel),
        Some(ListAction::OpenInEditor)
    );
}

#[test]
fn unknown_key_returns_none() {
    let ctx = ListActionContext::with_selection();
    assert_eq!(determine_list_action(key(KeyCode::Char('x')), ctx), None);
    assert_eq!(determine_list_action(key(KeyCode::Char('z')), ctx), None);
    assert_eq!(determine_list_action(key(KeyCode::F(1)), ctx), None);
}

#[test]
fn determine_action_is_deterministic() {
    let ctx = ListActionContext::with_selection();
    let k = key(KeyCode::Enter);

    // Same input always produces same output
    let r1 = determine_list_action(k, ctx);
    let r2 = determine_list_action(k, ctx);
    assert_eq!(r1, r2);
}

#[test]
fn context_affects_guarded_actions() {
    let k = key(KeyCode::Enter);

    // Different contexts produce different results for guarded actions
    let empty = ListActionContext::empty();
    let with_sel = ListActionContext::with_selection();

    assert_ne!(
        determine_list_action(k, empty),
        determine_list_action(k, with_sel)
    );
}

#[test]
fn navigation_keys_work_on_empty_list() {
    // Navigation keys should still return actions on empty list
    // (the execution layer handles the empty case)
    let empty = ListActionContext::empty();

    assert_eq!(
        determine_list_action(key(KeyCode::Up), empty),
        Some(ListAction::MoveUp)
    );
    assert_eq!(
        determine_list_action(key(KeyCode::Down), empty),
        Some(ListAction::MoveDown)
    );
}
