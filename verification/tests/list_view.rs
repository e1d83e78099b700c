use debtmap_tui::filter::{Filter, SeverityFilter};
use debtmap_tui::grouping::group_by_location;
use debtmap_tui::item::{DebtType, Location, UnifiedAnalysis, UnifiedDebtItem};
use debtmap_tui::list_view::{empty_list_text, format_grouped_item};
use debtmap_tui::results_app::ResultsApp;
use debtmap_tui::sort::SortCriteria;

fn row_item(file: &str, function: &str, score: u64, cognitive: u32) -> UnifiedDebtItem {
    let mut item = UnifiedDebtItem::new(
        Location::new(file, function, 10),
        DebtType::ComplexityHotspot { cyclomatic: 5, cognitive },
        score,
    );
    item.cognitive_complexity = cognitive;
    item.nesting_depth = 2;
    item.function_length = 40;
    item
}

#[test]
fn grouped_row_single_item() {
    let items = vec![row_item("src/lib/file.rs", "parse", 5000, 12)];
    let refs: Vec<&UnifiedDebtItem> = items.iter().collect();
    let groups = group_by_location(&refs, SortCriteria::Score);
    let row = format_grouped_item(&groups[0], 0, true);
    assert_eq!(row.indicator, "▸ ");
    assert_eq!(row.rank, "#1   ");
    assert_eq!(row.score, "50.0   ");
    assert_eq!(row.severity, SeverityFilter::High);
    assert_eq!(row.location, "file.rs::parse");
    assert_eq!(row.badge, "");
    assert_eq!(row.metrics, "(Cog:12 Nest:2 LOC:40)");
}

#[test]
fn grouped_row_several_items_with_coverage() {
    let mut a = row_item("main.rs", "run", 7500, 3);
    a.coverage = Some(4550);
    let b = row_item("main.rs", "run", 6000, 9);
    let items = vec![a, b];
    let refs: Vec<&UnifiedDebtItem> = items.iter().collect();
    let groups = group_by_location(&refs, SortCriteria::Score);
    let row = format_grouped_item(&groups[0], 11, false);
    assert_eq!(row.indicator, "  ");
    assert_eq!(row.rank, "#12  ");
    assert_eq!(row.score, "135.0  ");
    assert_eq!(row.severity, SeverityFilter::Critical);
    assert_eq!(row.location, "main.rs::run");
    assert_eq!(row.badge, " (2 items)");
    assert_eq!(row.metrics, "(Cov:46% Cog:9 Nest:2 LOC:40)");
}

#[test]
fn grouped_row_file_scope_and_low_score() {
    let mut item = row_item("a/b/mod.rs", "[file-scope]", 455, 0);
    item.nesting_depth = 0;
    item.function_length = 0;
    let items = vec![item];
    let refs: Vec<&UnifiedDebtItem> = items.iter().collect();
    let groups = group_by_location(&refs, SortCriteria::Score);
    let row = format_grouped_item(&groups[0], 0, false);
    assert_eq!(row.location, "mod.rs");
    assert_eq!(row.score, "4.6    ");
    assert_eq!(row.severity, SeverityFilter::Low);
    assert_eq!(row.metrics, "()");
}

#[test]
fn grouped_row_medium_band() {
    let items = vec![row_item("x.rs", "f", 1000, 1)];
    let refs: Vec<&UnifiedDebtItem> = items.iter().collect();
    let groups = group_by_location(&refs, SortCriteria::Score);
    let row = format_grouped_item(&groups[0], 0, false);
    assert_eq!(row.severity, SeverityFilter::Medium);
    assert_eq!(row.score, "10.0   ");
}

#[test]
fn empty_list_text_depends_on_narrowing() {
    let mut app = ResultsApp::new(UnifiedAnalysis::new());
    assert_eq!(empty_list_text(&app), "No debt items found");
    app.query_mut().search_mut().set_query("zzz".to_string());
    assert_eq!(empty_list_text(&app), "No items match current filters/search");
    app.query_mut().search_mut().set_query(String::new());
    assert_eq!(empty_list_text(&app), "No debt items found");
    let analysis = UnifiedAnalysis::new();
    app.query_mut().add_filter(Filter::Severity(SeverityFilter::High), &analysis);
    assert_eq!(empty_list_text(&app), "No items match current filters/search");
}

#[test]
fn grouped_row_file_name_follows_path_components() {
    let cases = [
        ("src/engine.rs/.//", "engine.rs::run"),
        ("./lib.rs", "lib.rs::run"),
        ("src/..", "unknown::run"),
        ("/", "unknown::run"),
    ];
    for (file, expected) in cases {
        let items = vec![row_item(file, "run", 5000, 1)];
        let refs: Vec<&UnifiedDebtItem> = items.iter().collect();
        let groups = group_by_location(&refs, SortCriteria::Score);
        assert_eq!(format_grouped_item(&groups[0], 0, false).location, expected, "path {:?}", file);
    }
}
