use debtmap_tui::filter::{Filter, SeverityFilter};
use debtmap_tui::item::{
    DebtType, FileDebtItem, FileMetrics, Location, PreparedDebtView, UnifiedAnalysis, UnifiedDebtItem, ViewItem,
};
use debtmap_tui::results_app::ResultsApp;
use debtmap_tui::sort::SortCriteria;
use debtmap_tui::view_mode::ViewMode;

fn create_test_analysis() -> UnifiedAnalysis {
    UnifiedAnalysis::new()
}

fn item(file: &str, function: &str, line: usize, score: u64) -> UnifiedDebtItem {
    UnifiedDebtItem::new(Location::new(file, function, line), DebtType::Complexity { cyclomatic: 5, cognitive: 3 }, score)
}

#[test]
fn test_results_app_new() {
    let analysis = create_test_analysis();
    let app = ResultsApp::new(analysis);
    assert_eq!(app.terminal_size(), (80, 24));
    assert!(!app.has_items());
    assert!(!app.has_selection());
}

#[test]
fn test_status_message_lifecycle() {
    let analysis = create_test_analysis();
    let mut app = ResultsApp::new(analysis);
    assert!(app.status_message().is_none());
    app.set_status_message("Test message".to_string());
    assert_eq!(app.status_message(), Some("Test message"));
    app.clear_status_message();
    assert!(app.status_message().is_none());
}

#[test]
fn test_redraw_flag() {
    let analysis = create_test_analysis();
    let mut app = ResultsApp::new(analysis);
    assert!(!app.take_needs_redraw());
    app.request_redraw();
    assert!(app.take_needs_redraw());
    assert!(!app.take_needs_redraw());
}

#[test]
fn test_state_accessors() {
    let analysis = create_test_analysis();
    let mut app = ResultsApp::new(analysis);
    assert_eq!(app.list().selected_index(), 0);
    assert!(app.query().filtered_indices().is_empty());
    assert_eq!(app.nav().view_mode, ViewMode::List);
    let _ = app.list_mut();
    let _ = app.query_mut();
    let _ = app.nav_mut();
}

#[test]
fn test_count_display_empty() {
    let analysis = create_test_analysis();
    let app = ResultsApp::new(analysis);
    let display = app.count_display();
    assert!(display.contains("0 locations"));
    assert!(display.contains("0 issues"));
}

#[test]
fn test_detail_scroll_offset() {
    let analysis = create_test_analysis();
    let app = ResultsApp::new(analysis);
    let (y, x) = app.detail_scroll_offset();
    assert_eq!(y, 0);
    assert_eq!(x, 0);
}

#[test]
fn count_display_counts_locations_and_issues() {
    let mut analysis = create_test_analysis();
    analysis.items.push(item("a.rs", "f", 1, 2000));
    analysis.items.push(item("a.rs", "f", 1, 3000));
    analysis.items.push(item("b.rs", "g", 2, 1000));
    let app = ResultsApp::new(analysis);
    assert_eq!(app.count_display(), "2 locations (3 issues)");
    assert_eq!(app.item_count(), 2);
}

#[test]
fn selected_item_is_first_item_of_highest_scoring_location() {
    let mut analysis = create_test_analysis();
    analysis.items.push(item("low.rs", "f", 1, 1000));
    analysis.items.push(item("high.rs", "g", 2, 9000));
    let app = ResultsApp::new(analysis);
    let selected = app.selected_item().unwrap();
    assert_eq!(selected.location.file, "high.rs");
}

#[test]
fn add_filter_resets_the_list_and_keeps_matching_items() {
    let mut analysis = create_test_analysis();
    analysis.items.push(item("a.rs", "f", 1, 20000));
    analysis.items.push(item("b.rs", "g", 2, 500));
    let mut app = ResultsApp::new(analysis);
    app.list_mut().set_selected_index(1, 2);
    app.add_filter(Filter::Severity(SeverityFilter::Critical));
    assert_eq!(app.list().selected_index(), 0);
    assert_eq!(app.query().filtered_indices(), &[0]);
    app.clear_filters();
    assert_eq!(app.query().filtered_indices().len(), 2);
}

#[test]
fn set_sort_by_orders_by_file_path() {
    let mut analysis = create_test_analysis();
    analysis.items.push(item("z.rs", "f", 1, 9000));
    analysis.items.push(item("a.rs", "g", 2, 100));
    let mut app = ResultsApp::new(analysis);
    assert_eq!(app.query().filtered_indices(), &[0, 1]);
    app.set_sort_by(SortCriteria::FilePath);
    assert_eq!(app.query().filtered_indices(), &[1, 0]);
}

#[test]
fn status_message_shows_for_three_seconds() {
    let mut app = ResultsApp::new(create_test_analysis());
    assert_eq!(app.status_message_after(0), None);
    app.set_status_message("Copied path to clipboard".to_string());
    assert_eq!(app.status_message_after(0), Some("Copied path to clipboard"));
    assert_eq!(app.status_message_after(2999), Some("Copied path to clipboard"));
    assert_eq!(app.status_message_after(3000), None);
}

#[test]
fn status_message_expires_after_three_seconds() {
    let mut app = ResultsApp::new(create_test_analysis());
    app.set_status_message("Saved".to_string());
    app.expire_status_message_after(2999);
    assert_eq!(app.status_message(), Some("Saved"));
    app.expire_status_message_after(3000);
    assert_eq!(app.status_message(), None);
    app.expire_status_message_after(5000);
    assert_eq!(app.status_message_after(0), None);
}

#[test]
fn from_prepared_view_takes_the_view_items_in_order() {
    let file = |path: &str| FileDebtItem {
        metrics: FileMetrics {
            path: path.to_string(),
            afferent_coupling: 0,
            efferent_coupling: 0,
            instability: 0,
            dependents: vec![],
            dependencies_list: vec![],
        },
    };
    let mut analysis = UnifiedAnalysis::new();
    analysis.items.push(item("old.rs", "old", 1, 100));
    let view = PreparedDebtView {
        items: vec![
            ViewItem::Function(item("a.rs", "first", 1, 500)),
            ViewItem::File(file("a.rs")),
            ViewItem::Function(item("b.rs", "second", 2, 900)),
            ViewItem::File(file("b.rs")),
        ],
    };
    let app = ResultsApp::from_prepared_view(view, analysis);
    let names: Vec<&str> = app.analysis().items.iter().map(|i| i.location.function.as_str()).collect();
    assert_eq!(names, vec!["first", "second"]);
    let paths: Vec<&str> = app.analysis().file_items.iter().map(|f| f.metrics.path.as_str()).collect();
    assert_eq!(paths, vec!["a.rs", "b.rs"]);
    assert_eq!(app.item_count(), 2);
    assert_eq!(app.nav().view_mode, ViewMode::List);
}
