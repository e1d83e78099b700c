use debtmap_tui::detail_actions::{classify_detail_key, page_from_digit, DetailAction, DetailActionContext};
use debtmap_tui::detail_page::DetailPage;
use debtmap_tui::keys::{KeyCode, KeyEvent, KeyModifiers};

fn key(code: KeyCode) -> KeyEvent {
    KeyEvent::new(code, KeyModifiers::none())
}

#[test]
fn escape_navigates_back() {
    let ctx = DetailActionContext::new(DetailPage::Overview);
    assert_eq!(
        classify_detail_key(key(KeyCode::Esc), ctx),
        Some(DetailAction::NavigateBack)
    );
}

#[test]
fn q_navigates_back() {
    let ctx = DetailActionContext::new(DetailPage::Overview);
    assert_eq!(
        classify_detail_key(key(KeyCode::Char('q')), ctx),
        Some(DetailAction::NavigateBack)
    );
}

#[test]
fn tab_goes_to_next_page() {
    let ctx = DetailActionContext::new(DetailPage::Overview);
    assert_eq!(
        classify_detail_key(key(KeyCode::Tab), ctx),
        Some(DetailAction::NextPage)
    );
}

#[test]
fn right_arrow_goes_to_next_page() {
    let ctx = DetailActionContext::new(DetailPage::Overview);
    assert_eq!(
        classify_detail_key(key(KeyCode::Right), ctx),
        Some(DetailAction::NextPage)
    );
}

#[test]
fn l_goes_to_next_page() {
    let ctx = DetailActionContext::new(DetailPage::Overview);
    assert_eq!(
        classify_detail_key(key(KeyCode::Char('l')), ctx),
        Some(DetailAction::NextPage)
    );
}

#[test]
fn page_from_digit_returns_none_for_invalid() {
    assert_eq!(page_from_digit('0'), None);
    assert_eq!(page_from_digit('9'), None);
    assert_eq!(page_from_digit('a'), None);
}

#[test]
fn down_moves_selection_positive() {
    let ctx = DetailActionContext::new(DetailPage::Overview);
    assert_eq!(
        classify_detail_key(key(KeyCode::Down), ctx),
        Some(DetailAction::MoveSelection(1))
    );
}

#[test]
fn j_moves_selection_positive() {
    let ctx = DetailActionContext::new(DetailPage::Overview);
    assert_eq!(
        classify_detail_key(key(KeyCode::Char('j')), ctx),
        Some(DetailAction::MoveSelection(1))
    );
}

#[test]
fn up_moves_selection_negative() {
    let ctx = DetailActionContext::new(DetailPage::Overview);
    assert_eq!(
        classify_detail_key(key(KeyCode::Up), ctx),
        Some(DetailAction::MoveSelection(-1))
    );
}

#[test]
fn k_moves_selection_negative() {
    let ctx = DetailActionContext::new(DetailPage::Overview);
    assert_eq!(
        classify_detail_key(key(KeyCode::Char('k')), ctx),
        Some(DetailAction::MoveSelection(-1))
    );
}

#[test]
fn c_on_other_pages_copies_page() {
    for page in [
        DetailPage::Overview,
        DetailPage::ScoreBreakdown,
        DetailPage::Dependencies,
        DetailPage::GitContext,
        DetailPage::Patterns,
        DetailPage::DataFlow,
        DetailPage::Responsibilities,
    ] {
        let ctx = DetailActionContext::new(page);
        assert_eq!(
            classify_detail_key(key(KeyCode::Char('c')), ctx),
            Some(DetailAction::CopyPage),
            "'c' on {:?} should copy page",
            page
        );
    }
}

#[test]
fn p_on_other_pages_does_nothing() {
    for page in [
        DetailPage::Overview,
        DetailPage::ScoreBreakdown,
        DetailPage::Dependencies,
        DetailPage::GitContext,
        DetailPage::Patterns,
        DetailPage::DataFlow,
        DetailPage::Responsibilities,
    ] {
        let ctx = DetailActionContext::new(page);
        assert_eq!(
            classify_detail_key(key(KeyCode::Char('p')), ctx),
            None,
            "'p' on {:?} should do nothing",
            page
        );
    }
}

#[test]
fn e_opens_in_editor() {
    let ctx = DetailActionContext::new(DetailPage::Overview);
    assert_eq!(
        classify_detail_key(key(KeyCode::Char('e')), ctx),
        Some(DetailAction::OpenInEditor)
    );
}

#[test]
fn o_opens_in_editor() {
    let ctx = DetailActionContext::new(DetailPage::Overview);
    assert_eq!(
        classify_detail_key(key(KeyCode::Char('o')), ctx),
        Some(DetailAction::OpenInEditor)
    );
}

#[test]
fn question_mark_shows_help() {
    let ctx = DetailActionContext::new(DetailPage::Overview);
    assert_eq!(
        classify_detail_key(key(KeyCode::Char('?')), ctx),
        Some(DetailAction::ShowHelp)
    );
}

#[test]
fn unknown_keys_return_none() {
    let ctx = DetailActionContext::new(DetailPage::Overview);

    assert_eq!(classify_detail_key(key(KeyCode::Char('x')), ctx), None);
    assert_eq!(classify_detail_key(key(KeyCode::Char('z')), ctx), None);
    assert_eq!(classify_detail_key(key(KeyCode::F(1)), ctx), None);
    assert_eq!(classify_detail_key(key(KeyCode::Char('0')), ctx), None);
    assert_eq!(classify_detail_key(key(KeyCode::Char('9')), ctx), None);
}

#[test]
fn backtab_goes_to_prev_page() {
    let ctx = DetailActionContext::new(DetailPage::Context);
    assert_eq!(classify_detail_key(key(KeyCode::BackTab), ctx), Some(DetailAction::PrevPage));
}

#[test]
fn left_arrow_goes_to_prev_page() {
    let ctx = DetailActionContext::new(DetailPage::Context);
    assert_eq!(classify_detail_key(key(KeyCode::Left), ctx), Some(DetailAction::PrevPage));
}

#[test]
fn h_goes_to_prev_page() {
    let ctx = DetailActionContext::new(DetailPage::Context);
    assert_eq!(classify_detail_key(key(KeyCode::Char('h')), ctx), Some(DetailAction::PrevPage));
}

#[test]
fn number_keys_jump_to_pages() {
    let ctx = DetailActionContext::new(DetailPage::Overview);
    let expected_pages = [
        ('1', DetailPage::Overview),
        ('2', DetailPage::ScoreBreakdown),
        ('3', DetailPage::Context),
        ('4', DetailPage::Dependencies),
        ('5', DetailPage::GitContext),
        ('6', DetailPage::Patterns),
        ('7', DetailPage::DataFlow),
        ('8', DetailPage::Responsibilities),
    ];
    for (digit, expected_page) in expected_pages {
        assert_eq!(
            classify_detail_key(key(KeyCode::Char(digit)), ctx),
            Some(DetailAction::JumpToPage(expected_page)),
            "digit '{}' should jump to {:?}",
            digit,
            expected_page
        );
        assert_eq!(page_from_digit(digit), Some(expected_page));
    }
}

#[test]
fn c_on_context_page_copies_context() {
    let ctx = DetailActionContext::new(DetailPage::Context);
    assert_eq!(classify_detail_key(key(KeyCode::Char('c')), ctx), Some(DetailAction::CopyContext));
}

#[test]
fn p_on_context_page_copies_primary() {
    let ctx = DetailActionContext::new(DetailPage::Context);
    assert_eq!(classify_detail_key(key(KeyCode::Char('p')), ctx), Some(DetailAction::CopyPrimary));
}

#[test]
fn classification_is_deterministic() {
    let ctx = DetailActionContext::new(DetailPage::Context);
    let k = key(KeyCode::Char('c'));
    let r1 = classify_detail_key(k, ctx);
    let r2 = classify_detail_key(k, ctx);
    assert_eq!(r1, r2);
}

#[test]
fn context_affects_copy_action() {
    let k = key(KeyCode::Char('c'));
    let context_page = DetailActionContext::new(DetailPage::Context);
    let overview_page = DetailActionContext::new(DetailPage::Overview);
    assert_ne!(classify_detail_key(k, context_page), classify_detail_key(k, overview_page));
}

#[test]
fn navigation_keys_work_on_all_pages() {
    for page in [
        DetailPage::Overview,
        DetailPage::ScoreBreakdown,
        DetailPage::Context,
        DetailPage::Dependencies,
        DetailPage::GitContext,
        DetailPage::Patterns,
        DetailPage::DataFlow,
        DetailPage::Responsibilities,
    ] {
        let ctx = DetailActionContext::new(page);
        assert_eq!(classify_detail_key(key(KeyCode::Esc), ctx), Some(DetailAction::NavigateBack), "Esc should work on {:?}", page);
        assert_eq!(classify_detail_key(key(KeyCode::Tab), ctx), Some(DetailAction::NextPage), "Tab should work on {:?}", page);
        assert_eq!(classify_detail_key(key(KeyCode::BackTab), ctx), Some(DetailAction::PrevPage), "BackTab should work on {:?}", page);
    }
}
