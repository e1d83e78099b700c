use debtmap_tui::filter::{CoverageFilter, Filter};
use debtmap_tui::grouping::{aggregate_metrics, group_by_location};
use debtmap_tui::item::{DebtType, Location, UnifiedAnalysis, UnifiedDebtItem};
use debtmap_tui::query_state::QueryState;
use debtmap_tui::sort::{sort_indices, SortCriteria};

fn create_empty_analysis() -> UnifiedAnalysis {
    UnifiedAnalysis::new()
}

#[test]
fn test_new_query_state() {
    let state = QueryState::new(10);
    assert_eq!(state.filtered_indices().len(), 10);
    assert_eq!(state.sort_by(), SortCriteria::Score);
    assert!(state.filters().is_empty());
}

#[test]
fn test_new_query_state_empty() {
    let state = QueryState::new(0);
    assert!(state.filtered_indices().is_empty());
}

#[test]
fn test_sort_by_change() {
    let analysis = create_empty_analysis();
    let mut state = QueryState::new(0);
    state.set_sort_by(SortCriteria::Complexity, &analysis);
    assert_eq!(state.sort_by(), SortCriteria::Complexity);
}

#[test]
fn test_search_state_access() {
    let mut state = QueryState::new(5);
    state.search_mut().set_query("test".to_string());
    assert_eq!(state.search().query(), "test");
}

#[test]
fn test_filtered_indices_mut() {
    let mut state = QueryState::new(10);
    state.filtered_indices_mut().clear();
    assert!(state.filtered_indices().is_empty());
}

fn create_test_item(file: &str, function: &str, line: usize, score: u64) -> UnifiedDebtItem {
    let mut item = UnifiedDebtItem::new(
        Location::new(file, function, line),
        DebtType::ComplexityHotspot { cyclomatic: 5, cognitive: 10 },
        score,
    );
    item.nesting_depth = 1;
    item.function_length = 10;
    item.cyclomatic_complexity = 5;
    item.cognitive_complexity = 10;
    item
}

#[test]
fn test_group_by_location_single_item() {
    let items = vec![create_test_item("file.rs", "func", 10, 5000)];
    let refs: Vec<&UnifiedDebtItem> = items.iter().collect();
    let groups = group_by_location(&refs, SortCriteria::Score);
    assert_eq!(groups.len(), 1);
    assert_eq!(groups[0].items.len(), 1);
    assert_eq!(groups[0].combined_score, 5000);
}

#[test]
fn test_group_by_location_multiple_types() {
    let items = vec![
        create_test_item("file.rs", "func", 10, 7500),
        create_test_item("file.rs", "func", 10, 6000),
        create_test_item("file.rs", "func", 10, 4500),
    ];
    let refs: Vec<&UnifiedDebtItem> = items.iter().collect();
    let groups = group_by_location(&refs, SortCriteria::Score);
    assert_eq!(groups.len(), 1);
    assert_eq!(groups[0].items.len(), 3);
    assert_eq!(groups[0].combined_score, 18000);
}

#[test]
fn test_combined_score_calculation() {
    let items = vec![
        create_test_item("file.rs", "func", 10, 7500),
        create_test_item("file.rs", "func", 10, 6000),
        create_test_item("file.rs", "func", 10, 4500),
    ];
    let refs: Vec<&UnifiedDebtItem> = items.iter().collect();
    let groups = group_by_location(&refs, SortCriteria::Score);
    assert_eq!(groups[0].combined_score, 18000);
}

#[test]
fn test_separate_locations() {
    let items = vec![
        create_test_item("file.rs", "func1", 10, 5000),
        create_test_item("file.rs", "func2", 20, 5000),
        create_test_item("other.rs", "func1", 10, 5000),
    ];
    let refs: Vec<&UnifiedDebtItem> = items.iter().collect();
    let groups = group_by_location(&refs, SortCriteria::Score);
    assert_eq!(groups.len(), 3);
    for group in &groups {
        assert_eq!(group.items.len(), 1);
    }
}

#[test]
fn test_max_severity() {
    let items = vec![
        create_test_item("file.rs", "func", 10, 7500),
        create_test_item("file.rs", "func", 10, 12000),
        create_test_item("file.rs", "func", 10, 4500),
    ];
    let refs: Vec<&UnifiedDebtItem> = items.iter().collect();
    let groups = group_by_location(&refs, SortCriteria::Score);
    assert_eq!(groups[0].max_severity, "critical");
}

#[test]
fn groups_are_ordered_by_combined_score() {
    let items = vec![
        create_test_item("a.rs", "f", 1, 1000),
        create_test_item("b.rs", "g", 2, 4000),
        create_test_item("a.rs", "f", 1, 5000),
    ];
    let refs: Vec<&UnifiedDebtItem> = items.iter().collect();
    let groups = group_by_location(&refs, SortCriteria::Score);
    assert_eq!(groups.len(), 2);
    assert_eq!(groups[0].location.file, "a.rs");
    assert_eq!(groups[0].combined_score, 6000);
    assert_eq!(groups[1].combined_score, 4000);
    let metrics = aggregate_metrics(&groups[0]);
    assert_eq!(metrics.cognitive_complexity, 10);
    assert_eq!(metrics.nesting_depth, 1);
}

#[test]
fn sort_by_score_is_descending_and_stable() {
    let items = vec![
        create_test_item("a.rs", "f", 1, 100),
        create_test_item("b.rs", "g", 2, 900),
        create_test_item("c.rs", "h", 3, 100),
    ];
    let mut indices = vec![0, 1, 2];
    sort_indices(&mut indices, &items, SortCriteria::Score);
    assert_eq!(indices, vec![1, 0, 2]);
    let mut by_path = vec![2, 1, 0];
    sort_indices(&mut by_path, &items, SortCriteria::FilePath);
    assert_eq!(by_path, vec![0, 1, 2]);
}

#[test]
fn coverage_filter_is_applied_to_query_results() {
    let mut analysis = create_empty_analysis();
    let mut covered = create_test_item("a.rs", "f", 1, 100);
    covered.coverage = Some(9000);
    analysis.items.push(covered);
    analysis.items.push(create_test_item("b.rs", "g", 2, 100));
    let mut state = QueryState::new(2);
    state.add_filter(Filter::Coverage(CoverageFilter::NoCoverage), &analysis);
    assert_eq!(state.filtered_indices(), &[1]);
    state.remove_filter(0, &analysis);
    assert_eq!(state.filtered_indices().len(), 2);
}

#[test]
fn group_by_location_compares_files_as_paths() {
    let items = vec![
        create_test_item("src//a.rs", "f", 10, 100),
        create_test_item("src/a.rs", "f", 10, 50),
        create_test_item("./src/a.rs", "f", 10, 20),
    ];
    let refs: Vec<&UnifiedDebtItem> = items.iter().collect();
    let groups = group_by_location(&refs, SortCriteria::Score);
    assert_eq!(groups.len(), 2);
    assert_eq!(groups[0].items.len(), 2);
    assert_eq!(groups[1].items.len(), 1);
}
