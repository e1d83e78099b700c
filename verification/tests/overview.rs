use debtmap_tui::actions::extract_page_text;
use debtmap_tui::data_flow::{fix_for_lowercase, format_reason_with_suggestion, get_fix_suggestion, reason_with_hint};
use debtmap_tui::detail_page::DetailPage;
use debtmap_tui::item::{
    DebtType, DetectionType, EntropyDetails, GodObjectIndicators, Location, UnifiedAnalysis, UnifiedDebtItem,
};
use debtmap_tui::overview::{format_cognitive_display, format_debt_type_name, get_items_at_location};
use debtmap_tui::page_text::{
    add_label_value, build_complexity_section, build_coverage_section, build_debt_types_section,
    build_god_object_section, build_location_section, build_recommendation_section, build_score_section,
    extract_overview_text,
};
use debtmap_tui::results_app::ResultsApp;
use debtmap_tui::text_extraction::format_path_text;

fn create_test_item(function_name: &str, final_score: u64, debt_type: DebtType) -> UnifiedDebtItem {
    let mut item = UnifiedDebtItem::new(Location::new("test.rs", function_name, 10), debt_type, final_score);
    item.primary_action = "Refactor to reduce complexity".to_string();
    item.rationale = "Test recommendation".to_string();
    item.cyclomatic_complexity = 15;
    item.cognitive_complexity = 20;
    item.nesting_depth = 3;
    item.function_length = 50;
    item
}

fn complexity_item(name: &str) -> UnifiedDebtItem {
    create_test_item(name, 7500, DebtType::ComplexityHotspot { cyclomatic: 15, cognitive: 20 })
}

#[test]
fn format_debt_type_name_all_variants() {
    assert_eq!(format_debt_type_name(&DebtType::ComplexityHotspot { cyclomatic: 1, cognitive: 1 }), "High Complexity");
    assert_eq!(format_debt_type_name(&DebtType::TestingGap { cyclomatic: 1, cognitive: 1 }), "Testing Gap");
    assert_eq!(
        format_debt_type_name(&DebtType::GodObject { methods: 1, fields: None, responsibilities: 1, lines: 1, god_object_score: 0 }),
        "God Object"
    );
}

#[test]
fn format_cognitive_display_no_dampening() {
    let item = complexity_item("func");
    let display = format_cognitive_display(&item, false);
    assert_eq!(display, "20");
}

#[test]
fn format_cognitive_display_with_dampening() {
    let mut item = complexity_item("func");
    item.entropy_details = Some(EntropyDetails { entropy_score: 250, pattern_repetition: 600, original_complexity: 30, adjusted_cognitive: 12, dampening_factor: 400 });
    assert_eq!(format_cognitive_display(&item, false), "30 → 12 (dampened)");
    item.entropy_details = Some(EntropyDetails { entropy_score: 250, pattern_repetition: 600, original_complexity: 30, adjusted_cognitive: 30, dampening_factor: 1000 });
    assert_eq!(format_cognitive_display(&item, false), "20");
    assert_eq!(format_cognitive_display(&item, true), "20");
}

#[test]
fn test_format_path_text() {
    let text = format_path_text("/tmp/test.rs");
    assert_eq!(text, "/tmp/test.rs");
}

#[test]
fn test_get_clipboard_fix_suggestion() {
    let io_reasons = vec!["i/o operation".to_string()];
    assert!(get_fix_suggestion(&io_reasons).is_some());
    let time_reasons = vec!["calls now()".to_string()];
    assert!(get_fix_suggestion(&time_reasons).is_some());
    let many_reasons = vec!["a".to_string(), "b".to_string(), "c".to_string()];
    assert!(get_fix_suggestion(&many_reasons).is_none());
}

#[test]
fn fix_suggestion_ignores_case_and_orders_causes() {
    assert_eq!(
        get_fix_suggestion(&vec!["Uses PRINTLN".to_string()]),
        Some("Move logging to caller - function becomes pure")
    );
    assert_eq!(
        get_fix_suggestion(&vec!["takes &mut param".to_string(), "x".to_string()]),
        Some("Consider taking &self instead of &mut self")
    );
    assert_eq!(get_fix_suggestion(&vec!["random seed".to_string()]), Some("Inject RNG as parameter for deterministic behavior"));
    assert_eq!(get_fix_suggestion(&vec!["global state".to_string()]), None);
    assert_eq!(get_fix_suggestion(&vec![]), None);
}

#[test]
fn test_format_debt_type_name() {
    let complexity = DebtType::ComplexityHotspot { cyclomatic: 10, cognitive: 20 };
    assert_eq!(format_debt_type_name(&complexity), "High Complexity");
    let god_object = DebtType::GodObject { methods: 50, fields: Some(20), responsibilities: 5, lines: 1000, god_object_score: 0 };
    assert_eq!(format_debt_type_name(&god_object), "God Object");
}

#[test]
fn label_values_are_padded_to_the_value_column() {
    let mut out = String::new();
    add_label_value(&mut out, "file", "test.rs");
    assert_eq!(out, format!("  file{}    test.rs\n", " ".repeat(18)));
    let mut long = String::new();
    add_label_value(&mut long, "a label longer than the column", "v");
    assert_eq!(long, "  a label longer than the column    v\n");
}

fn app_with(items: Vec<UnifiedDebtItem>) -> ResultsApp {
    let mut analysis = UnifiedAnalysis::new();
    for it in items {
        analysis.items.push(it);
    }
    ResultsApp::new(analysis)
}

#[test]
fn items_at_location_share_file_function_and_line() {
    let a = complexity_item("func");
    let b = create_test_item("func", 2000, DebtType::TestingGap { cyclomatic: 10, cognitive: 15 });
    let c = complexity_item("other");
    let app = app_with(vec![a, b, c]);
    let selected = app.analysis().items[0].clone();
    let at = get_items_at_location(&app, &selected);
    assert_eq!(at.len(), 2);
    assert_eq!(at[1].final_score, 2000);
}

#[test]
fn overview_text_of_a_single_item() {
    let mut item = complexity_item("func");
    item.coverage = Some(7550);
    let app = app_with(vec![item.clone()]);
    let text = extract_overview_text(&item, &app);
    let pad = |label: &str| format!("  {:22}    ", label);
    let expected = [
        "location\n".to_string(),
        format!("{}test.rs\n", pad("file")),
        format!("{}func\n", pad("function")),
        format!("{}10\n", pad("line")),
        "\n".to_string(),
        "score\n".to_string(),
        format!("{}75.0  [high]\n", pad("total")),
        "\n".to_string(),
        "complexity\n".to_string(),
        format!("{}15\n", pad("cyclomatic")),
        format!("{}20\n", pad("cognitive")),
        format!("{}3\n", pad("nesting")),
        format!("{}50\n", pad("loc")),
        "\n".to_string(),
        "coverage\n".to_string(),
        format!("{}75.5%\n", pad("coverage")),
        "\n".to_string(),
        "recommendation\n".to_string(),
        format!("{}Refactor to reduce complexity\n", pad("action")),
        "\n".to_string(),
        format!("{}Test recommendation\n", pad("rationale")),
        "\n".to_string(),
        "debt type\n".to_string(),
        "  High Complexity\n".to_string(),
    ]
    .concat();
    assert_eq!(text, expected);
}

#[test]
fn overview_text_combines_items_at_one_location() {
    let a = complexity_item("func");
    let b = create_test_item("func", 6000, DebtType::TestingGap { cyclomatic: 10, cognitive: 15 });
    let app = app_with(vec![a.clone(), b]);
    let text = extract_overview_text(&a, &app);
    assert!(text.contains("combined"));
    assert!(text.contains("135.0  [critical]"));
    assert!(text.contains("debt types\n  High Complexity\n  Testing Gap\n"));
    assert!(text.contains("No data"));
}

#[test]
fn overview_text_of_a_god_object() {
    let mut item = create_test_item(
        "[file-scope]",
        9000,
        DebtType::GodObject { methods: 40, fields: Some(12), responsibilities: 6, lines: 900, god_object_score: 0 },
    );
    item.god_object_indicators = Some(GodObjectIndicators {
        is_god_object: true,
        detection_type: DetectionType::GodClass,
        god_object_score: 0,
        method_count: 0,
        field_count: 0,
        responsibility_count: 0,
        weighted_method_count: None,
        trait_method_summary: None,
        domain_count: 0,
        domain_diversity: 0,
        complexity_metrics: None,
        aggregated_entropy: None,
        aggregated_error_swallowing_count: None,
        aggregated_error_swallowing_patterns: None,
        responsibilities: vec![],
        responsibility_method_counts: vec![],
    });
    let app = app_with(vec![item.clone()]);
    let text = extract_overview_text(&item, &app);
    assert!(text.contains("god object structure\n"));
    assert!(text.contains("  methods"));
    assert!(text.contains("  fields"));
    assert!(text.contains("accumulated cyclomatic"));
    assert!(text.contains("max nesting"));
    assert!(!text.contains("  loc                     50"));
}

#[test]
fn page_text_of_a_page_without_data_says_so() {
    let item = complexity_item("func");
    let app = app_with(vec![item.clone()]);
    assert_eq!(extract_page_text(&item, DetailPage::GitContext, &app), "No git context data available\n");
    assert_eq!(extract_page_text(&item, DetailPage::Overview, &app), extract_overview_text(&item, &app));
}

#[test]
fn reasons_get_inline_suggestions() {
    assert_eq!(format_reason_with_suggestion("Performs I/O"), "Performs I/O (extract to caller)");
    assert_eq!(format_reason_with_suggestion("calls println"), "calls println (extract to caller)");
    assert_eq!(format_reason_with_suggestion("Mutable state"), "Mutable state (consider &self instead)");
    assert_eq!(format_reason_with_suggestion("takes &mut self"), "takes &mut self (consider &self instead)");
    assert_eq!(format_reason_with_suggestion("unsafe block"), "unsafe block");
    assert_eq!(format_reason_with_suggestion("reads External config"), "reads External config (pass as parameter)");
    assert_eq!(format_reason_with_suggestion("recursion"), "recursion");
}

fn testing_gap_item(name: &str) -> UnifiedDebtItem {
    create_test_item(name, 6000, DebtType::TestingGap { cyclomatic: 10, cognitive: 15 })
}

fn big_class() -> UnifiedDebtItem {
    create_test_item(
        "BigClass",
        9000,
        DebtType::GodObject { methods: 25, fields: Some(15), responsibilities: 8, lines: 500, god_object_score: 8500 },
    )
}

#[test]
fn location_section_contains_file_function_line() {
    let item = complexity_item("test_func");
    let content = build_location_section(&item);
    assert!(content.lines().count() >= 4);
    assert!(content.contains("location"));
    assert!(content.contains("test.rs"));
    assert!(content.contains("test_func"));
    assert!(content.contains("10"));
}

#[test]
fn score_section_single_item_shows_total() {
    let item = complexity_item("func");
    let items: Vec<&UnifiedDebtItem> = vec![&item];
    let content = build_score_section(&items, &item);
    assert!(content.contains("score"));
    assert!(content.contains("total"));
    assert!(content.contains("75.0"));
}

#[test]
fn score_section_multiple_items_shows_combined() {
    let item1 = complexity_item("func1");
    let item2 = testing_gap_item("func1");
    let items: Vec<&UnifiedDebtItem> = vec![&item1, &item2];
    let content = build_score_section(&items, &item1);
    assert!(content.contains("combined"));
    assert!(content.contains("135.0"));
}

#[test]
fn god_object_section_empty_for_non_god_objects() {
    let item = complexity_item("func");
    assert!(build_god_object_section(&item).is_empty());
}

#[test]
fn god_object_section_populated_for_god_objects() {
    let item = big_class();
    let content = build_god_object_section(&item);
    assert!(!content.is_empty());
    assert!(content.contains("structure"));
    assert!(content.contains("25"));
    assert!(content.contains("15"));
    assert!(content.contains("8"));
    assert!(content.contains("500"));
}

#[test]
fn complexity_section_includes_metrics() {
    let item = complexity_item("func");
    let content = build_complexity_section(&item);
    assert!(content.contains("complexity"));
    assert!(content.contains("cyclomatic"));
    assert!(content.contains("cognitive"));
    assert!(content.contains("nesting"));
    assert!(content.contains("loc"));
}

#[test]
fn complexity_section_god_object_uses_accumulated_labels() {
    let item = big_class();
    let content = build_complexity_section(&item);
    assert!(content.contains("accumulated cyclomatic"));
    assert!(content.contains("accumulated cognitive"));
    assert!(content.contains("max nesting"));
    assert!(!content.contains("  loc  "));
}

#[test]
fn coverage_section_no_data_shows_placeholder() {
    let item = complexity_item("func");
    let content = build_coverage_section(&item);
    assert!(content.contains("coverage"));
    assert!(content.contains("No data"));
}

#[test]
fn coverage_section_with_data_shows_percentage() {
    let mut item = complexity_item("func");
    item.coverage = Some(8500);
    item.transitive_coverage = Some(7200);
    let content = build_coverage_section(&item);
    assert!(content.contains("85.0%"));
}

#[test]
fn recommendation_section_contains_action_and_rationale() {
    let item = complexity_item("func");
    let content = build_recommendation_section(&item);
    assert!(content.contains("recommendation"));
    assert!(content.contains("action"));
    assert!(content.contains("rationale"));
    assert!(content.contains("Refactor"));
}

#[test]
fn debt_types_section_single_item() {
    let item = complexity_item("func");
    let items: Vec<&UnifiedDebtItem> = vec![&item];
    let content = build_debt_types_section(&items, &item);
    assert!(content.contains("debt type"));
    assert!(content.contains("High Complexity"));
}

#[test]
fn debt_types_section_multiple_items() {
    let item1 = complexity_item("func");
    let item2 = testing_gap_item("func");
    let items: Vec<&UnifiedDebtItem> = vec![&item1, &item2];
    let content = build_debt_types_section(&items, &item1);
    assert!(content.contains("debt types"));
    assert!(content.contains("High Complexity"));
    assert!(content.contains("Testing Gap"));
}

#[test]
fn reasons_are_matched_by_their_unicode_lowercase() {
    assert_eq!(format_reason_with_suggestion("ÉCRIT VIA PRINT"), "ÉCRIT VIA PRINT (extract to caller)");
    assert_eq!(reason_with_hint("Écrit", "unsafe écrit"), "Écrit");
    assert_eq!(reason_with_hint("X", "reads external"), "X (pass as parameter)");
    assert_eq!(fix_for_lowercase("uses rand"), Some("Inject RNG as parameter for deterministic behavior"));
    assert_eq!(fix_for_lowercase("USES RAND"), None);
    assert_eq!(get_fix_suggestion(&vec!["ÉCRIT LE LOG".to_string()]), Some("Move logging to caller - function becomes pure"));
}
