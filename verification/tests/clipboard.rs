use debtmap_tui::actions::{
    copy_item_as_llm_to_clipboard, copy_page_to_clipboard, copy_report, extract_page_text, hand_to_clipboard, CopyOutcome,
};
use debtmap_tui::context::{format_context_for_clipboard, format_primary_for_clipboard};
use debtmap_tui::detail_actions::DetailAction;
use debtmap_tui::detail_page::DetailPage;
use debtmap_tui::item::{
    ContextSuggestion, DebtType, FileRange, Location, UnifiedAnalysis, UnifiedDebtItem,
};
use debtmap_tui::list_actions::ListAction;
use debtmap_tui::navigation::{execute_detail_action, execute_list_action};
use debtmap_tui::results_app::ResultsApp;
use debtmap_tui::view_mode::ViewMode;

fn suggestion() -> ContextSuggestion {
    ContextSuggestion {
        primary: FileRange {
            file: "src/engine.rs".to_string(),
            start_line: 12,
            end_line: 40,
            symbol: Some("run".to_string()),
        },
        related: vec![],
        total_lines: 29,
        completeness_confidence: 900,
    }
}

fn app_with_context(context: Option<ContextSuggestion>) -> ResultsApp {
    let mut item = UnifiedDebtItem::new(
        Location::new("src/engine.rs", "run", 12),
        DebtType::ComplexityHotspot { cyclomatic: 9, cognitive: 14 },
        4200,
    );
    item.context_suggestion = context;
    let mut analysis = UnifiedAnalysis::new();
    analysis.items.push(item);
    let mut app = ResultsApp::new(analysis);
    app.nav_mut().push_and_set_view(ViewMode::Detail);
    app
}


/// The last copied text is `expected`, unless no clipboard could be opened,
/// which the status message then reports and the last copied text stays unset.
fn assert_handed(app: &ResultsApp, expected: &str) {
    let message = app.status_message().expect("a copy sets a status message").to_string();
    if message.starts_with("Clipboard not available: ") {
        assert_eq!(app.last_copied_text(), None);
    } else {
        assert_eq!(app.last_copied_text(), Some(expected));
    }
}

#[test]
fn copy_report_of_each_outcome() {
    assert_eq!(copy_report(&CopyOutcome::Copied, "path"), "Copied path to clipboard");
    assert_eq!(
        copy_report(&CopyOutcome::Refused("busy".to_string()), "path"),
        "Clipboard error: busy"
    );
    assert_eq!(
        copy_report(&CopyOutcome::Unavailable("no display".to_string()), "page content"),
        "Clipboard not available: no display"
    );
}

#[test]
fn copy_page_hands_the_current_page_to_the_clipboard() {
    let mut app = app_with_context(None);
    app.nav_mut().detail_page = DetailPage::ScoreBreakdown;
    execute_detail_action(&mut app, DetailAction::CopyPage).unwrap();
    let item = app.selected_item().unwrap().clone();
    let expected = extract_page_text(&item, DetailPage::ScoreBreakdown, &app);
    assert_handed(&app, expected.as_str());
    assert_ne!(expected, extract_page_text(&item, DetailPage::Overview, &app));
    assert!(app.status_message().is_some());
}

#[test]
fn copy_finding_hands_the_overview_to_the_clipboard() {
    let mut app = app_with_context(None);
    app.nav_mut().detail_page = DetailPage::ScoreBreakdown;
    execute_detail_action(&mut app, DetailAction::CopyItemAsLlm).unwrap();
    let item = app.selected_item().unwrap().clone();
    let expected = extract_page_text(&item, DetailPage::Overview, &app);
    assert_handed(&app, expected.as_str());
}

#[test]
fn copy_path_hands_the_file_path_to_the_clipboard() {
    let mut app = app_with_context(None);
    execute_list_action(&mut app, ListAction::CopyPath).unwrap();
    assert_handed(&app, "src/engine.rs");
    let message = app.status_message().unwrap().to_string();
    assert!(message == "Copied path to clipboard" || message.starts_with("Clipboard"));
}

#[test]
fn copy_context_hands_the_suggestion_to_the_clipboard() {
    let mut app = app_with_context(Some(suggestion()));
    app.nav_mut().detail_page = DetailPage::Context;
    execute_detail_action(&mut app, DetailAction::CopyContext).unwrap();
    let expected = format_context_for_clipboard(&suggestion());
    assert_handed(&app, expected.as_str());
    assert!(app.status_message().is_some());
}

#[test]
fn copy_primary_hands_the_primary_range_to_the_clipboard() {
    let mut app = app_with_context(Some(suggestion()));
    app.nav_mut().detail_page = DetailPage::Context;
    execute_detail_action(&mut app, DetailAction::CopyPrimary).unwrap();
    assert_eq!(format_primary_for_clipboard(&suggestion()), "src/engine.rs:12-40 (run)");
    assert_handed(&app, "src/engine.rs:12-40 (run)");
}

#[test]
fn copy_context_without_a_suggestion_changes_nothing() {
    let mut app = app_with_context(None);
    app.nav_mut().detail_page = DetailPage::Context;
    execute_detail_action(&mut app, DetailAction::CopyContext).unwrap();
    execute_detail_action(&mut app, DetailAction::CopyPrimary).unwrap();
    assert_eq!(app.last_copied_text(), None);
    assert!(app.status_message().is_none());
}

#[test]
fn quit_and_search_work_on_a_tiny_terminal() {
    let mut app = app_with_context(None);
    app.nav_mut().go_back();
    app.set_terminal_size(80, 3);
    assert!(!execute_list_action(&mut app, ListAction::EnterSearch).unwrap());
    assert_eq!(app.nav().view_mode, ViewMode::Search);
    let mut app = app_with_context(None);
    app.set_terminal_size(80, 3);
    assert!(execute_list_action(&mut app, ListAction::Quit).unwrap());
}

#[test]
fn hand_to_clipboard_hands_over_the_given_text() {
    let (outcome, handed) = hand_to_clipboard("fn main() {}".to_string());
    match outcome {
        CopyOutcome::Unavailable(_) => assert!(handed.is_none()),
        _ => assert_eq!(handed.as_deref(), Some("fn main() {}")),
    }
}

#[test]
fn moves_on_an_empty_list_work_on_a_tiny_terminal() {
    let mut app = ResultsApp::new(UnifiedAnalysis::new());
    app.set_terminal_size(80, 3);
    for action in [ListAction::MoveDown, ListAction::MoveUp, ListAction::PageDown, ListAction::PageUp] {
        assert!(!execute_list_action(&mut app, action).unwrap());
        assert_eq!(app.list().selected_index(), 0);
        assert_eq!(app.list().scroll_offset(), 0);
    }
}

#[test]
fn copy_page_to_clipboard_hands_over_the_page_text() {
    let mut app = app_with_context(None);
    app.nav_mut().detail_page = DetailPage::ScoreBreakdown;
    let item = app.selected_item().unwrap().clone();
    let (report, handed) = copy_page_to_clipboard(&item, DetailPage::ScoreBreakdown, &app);
    let message = report.unwrap();
    let expected = extract_page_text(&item, DetailPage::ScoreBreakdown, &app);
    if message.starts_with("Clipboard not available: ") {
        assert!(handed.is_none());
    } else {
        assert_eq!(handed, Some(expected));
    }
    let (report, handed) = copy_item_as_llm_to_clipboard(&item, &app);
    let message = report.unwrap();
    if !message.starts_with("Clipboard not available: ") {
        assert_eq!(handed, Some(extract_page_text(&item, DetailPage::Overview, &app)));
    }
}
