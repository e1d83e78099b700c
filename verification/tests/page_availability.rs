use debtmap_tui::detail_page::DetailPage;
use debtmap_tui::item::{ContextualRisk, DataFlowGraph, DebtType, FunctionId, Location, PurityInfo, UnifiedDebtItem};
use debtmap_tui::page_availability::{
    available_pages, ensure_valid_page, has_data_flow_data, has_direct_pattern_data, has_git_context,
    has_pattern_data, is_page_available, next_available_page, prev_available_page,
};

fn create_test_item() -> UnifiedDebtItem {
    let mut item = UnifiedDebtItem::new(
        Location::new("test.rs", "test_fn", 1),
        DebtType::ComplexityHotspot { cyclomatic: 5, cognitive: 10 },
        5000,
    );
    item.primary_action = "Test".to_string();
    item.rationale = "Test".to_string();
    item.nesting_depth = 0;
    item.function_length = 10;
    item.cyclomatic_complexity = 5;
    item.cognitive_complexity = 10;
    item
}

fn create_empty_data_flow() -> DataFlowGraph {
    DataFlowGraph::new()
}

#[test]
fn test_has_git_context_none() {
    let item = create_test_item();
    assert!(!has_git_context(&item));
}

#[test]
fn test_has_git_context_some() {
    let mut item = create_test_item();
    item.contextual_risk = Some(ContextualRisk { base_risk: 50, contextual_risk: 70, contexts: vec![] });
    assert!(has_git_context(&item));
}

#[test]
fn test_has_direct_pattern_data_none() {
    let item = create_test_item();
    assert!(!has_direct_pattern_data(&item));
}

#[test]
fn test_has_direct_pattern_data_is_pure() {
    let mut item = create_test_item();
    item.is_pure = Some(true);
    assert!(has_direct_pattern_data(&item));
}

#[test]
fn test_has_pattern_data_basic() {
    let item = create_test_item();
    let data_flow = create_empty_data_flow();
    assert!(!has_pattern_data(&item, &data_flow));
}

#[test]
fn test_has_data_flow_data_none() {
    let item = create_test_item();
    let data_flow = create_empty_data_flow();
    assert!(!has_data_flow_data(&item, &data_flow));
}

#[test]
fn test_available_pages_minimal() {
    let item = create_test_item();
    let data_flow = create_empty_data_flow();
    let pages = available_pages(Some(&item), &data_flow);
    assert_eq!(pages.len(), 4);
    assert_eq!(pages[0], DetailPage::Overview);
    assert_eq!(pages[1], DetailPage::ScoreBreakdown);
    assert_eq!(pages[2], DetailPage::Dependencies);
    assert_eq!(pages[3], DetailPage::Responsibilities);
}

#[test]
fn test_available_pages_with_git_context() {
    let mut item = create_test_item();
    item.contextual_risk = Some(ContextualRisk { base_risk: 50, contextual_risk: 70, contexts: vec![] });
    let data_flow = create_empty_data_flow();
    let pages = available_pages(Some(&item), &data_flow);
    assert!(pages.contains(&DetailPage::GitContext));
}

#[test]
fn test_available_pages_none_item() {
    let data_flow = create_empty_data_flow();
    let pages = available_pages(None, &data_flow);
    assert_eq!(pages.len(), 4);
}

#[test]
fn test_is_page_available_overview() {
    let item = create_test_item();
    let data_flow = create_empty_data_flow();
    assert!(is_page_available(DetailPage::Overview, Some(&item), &data_flow));
}

#[test]
fn test_is_page_available_patterns_false() {
    let item = create_test_item();
    let data_flow = create_empty_data_flow();
    assert!(!is_page_available(DetailPage::Patterns, Some(&item), &data_flow));
}

#[test]
fn test_next_available_page_wraps() {
    let item = create_test_item();
    let data_flow = create_empty_data_flow();
    let next = next_available_page(DetailPage::Responsibilities, Some(&item), &data_flow);
    assert_eq!(next, DetailPage::Overview);
}

#[test]
fn test_prev_available_page_wraps() {
    let item = create_test_item();
    let data_flow = create_empty_data_flow();
    let prev = prev_available_page(DetailPage::Overview, Some(&item), &data_flow);
    assert_eq!(prev, DetailPage::Responsibilities);
}

#[test]
fn test_ensure_valid_page_valid() {
    let item = create_test_item();
    let data_flow = create_empty_data_flow();
    let result = ensure_valid_page(DetailPage::Overview, Some(&item), &data_flow);
    assert_eq!(result, DetailPage::Overview);
}

#[test]
fn test_ensure_valid_page_invalid_falls_back() {
    let item = create_test_item();
    let data_flow = create_empty_data_flow();
    let result = ensure_valid_page(DetailPage::Patterns, Some(&item), &data_flow);
    assert_eq!(result, DetailPage::Overview);
}

#[test]
fn data_flow_page_appears_with_purity_information() {
    let item = create_test_item();
    let mut data_flow = create_empty_data_flow();
    data_flow.add_purity_info(
        FunctionId { file: "test.rs".to_string(), name: "test_fn".to_string(), line: 1 },
        PurityInfo { is_pure: true, confidence: 900, impurity_reasons: vec![] },
    );
    assert!(has_data_flow_data(&item, &data_flow));
    let pages = available_pages(Some(&item), &data_flow);
    assert_eq!(
        pages,
        vec![
            DetailPage::Overview,
            DetailPage::ScoreBreakdown,
            DetailPage::Dependencies,
            DetailPage::Patterns,
            DetailPage::DataFlow,
            DetailPage::Responsibilities,
        ]
    );
}

#[test]
fn page_cycle_visits_each_available_page_once() {
    let mut item = create_test_item();
    item.contextual_risk = Some(ContextualRisk { base_risk: 50, contextual_risk: 70, contexts: vec![] });
    let data_flow = create_empty_data_flow();
    let pages = available_pages(Some(&item), &data_flow);
    let mut page = DetailPage::Overview;
    let mut seen = Vec::new();
    for _ in 0..pages.len() {
        seen.push(page);
        let next = next_available_page(page, Some(&item), &data_flow);
        assert_eq!(prev_available_page(next, Some(&item), &data_flow), page);
        page = next;
    }
    assert_eq!(seen, pages);
    assert_eq!(page, DetailPage::Overview);
}
