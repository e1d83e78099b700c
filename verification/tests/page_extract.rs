use debtmap_tui::actions::extract_page_text;
use debtmap_tui::detail_page::DetailPage;
use debtmap_tui::item::{
    ContextDetails, ContextualRisk, DataFlowGraph, DebtType, DetectedPattern, DetectionType, EntropyDetails,
    FileDebtItem, FileMetrics, FunctionId, GodObjectIndicators, IoOperation, Location, MutationInfo,
    PatternAnalysis, PurityInfo, ResponsibilityCount, RiskContext, RustSpecificData, UnifiedAnalysis,
    UnifiedDebtItem,
};
use debtmap_tui::page_extract::{
    extract_function_dependencies_text,
    extract_data_flow_text, extract_dependencies_text, build_final_score_section, extract_git_context_text,
    extract_patterns_text, extract_responsibilities_text,
};
use debtmap_tui::results_app::ResultsApp;

/// A label-value line as the pages lay it out.
fn lv(label: &str, value: &str) -> String {
    format!("{:<24}    {}\n", format!("  {}", label), value)
}

fn item_at(file: &str, function: &str, line: usize) -> UnifiedDebtItem {
    UnifiedDebtItem::new(
        Location::new(file, function, line),
        DebtType::ComplexityHotspot { cyclomatic: 8, cognitive: 12 },
        5000,
    )
}

fn file_item(path: &str, afferent: usize, efferent: usize, instability: u32, dependents: &[&str]) -> FileDebtItem {
    FileDebtItem {
        metrics: FileMetrics {
            path: path.to_string(),
            afferent_coupling: afferent,
            efferent_coupling: efferent,
            instability,
            dependents: dependents.iter().map(|s| s.to_string()).collect(),
            dependencies_list: vec![],
        },
    }
}

fn app_with_files(files: Vec<FileDebtItem>) -> ResultsApp {
    let mut analysis = UnifiedAnalysis::new();
    for f in files {
        analysis.file_items.push(f);
    }
    ResultsApp::new(analysis)
}

fn fid(file: &str, name: &str, line: usize) -> FunctionId {
    FunctionId { file: file.to_string(), name: name.to_string(), line }
}

fn god_indicators(is_god: bool, responsibilities: &[&str], counts: &[(&str, usize)]) -> GodObjectIndicators {
    GodObjectIndicators {
        is_god_object: is_god,
        detection_type: DetectionType::GodClass,
        god_object_score: 0,
        method_count: 0,
        field_count: 0,
        responsibility_count: 0,
        weighted_method_count: None,
        trait_method_summary: None,
        domain_count: 0,
        domain_diversity: 0,
        complexity_metrics: None,
        aggregated_entropy: None,
        aggregated_error_swallowing_count: None,
        aggregated_error_swallowing_patterns: None,
        responsibilities: responsibilities.iter().map(|s| s.to_string()).collect(),
        responsibility_method_counts: counts
            .iter()
            .map(|(r, n)| ResponsibilityCount { responsibility: r.to_string(), methods: *n })
            .collect(),
    }
}

#[test]
fn dependencies_text_with_stable_core_file() {
    let mut item = item_at("src/core/engine.rs", "run", 10);
    item.upstream_dependencies = 3;
    item.downstream_dependencies = 12;
    let files = vec![
        file_item("src/other.rs", 1, 1, 50, &[]),
        file_item("src/core/engine.rs", 8, 2, 20, &["src/a/cli.rs", "main.rs"]),
    ];
    let expected = String::from("function dependencies\n")
        + &lv("upstream", "3")
        + &lv("downstream", "12")
        + &lv("blast radius", "15")
        + &lv("critical", "Yes")
        + "\ncoupling profile\n"
        + &lv("classification", "[STABLE CORE]")
        + &lv("afferent (ca)", "8")
        + &lv("efferent (ce)", "2")
        + &lv("instability", "0.20 ████░░░░░░░░░░░░░░░░")
        + "\ndependents (who uses this)\n"
        + "  • cli.rs\n"
        + "  • main.rs\n";
    assert_eq!(extract_dependencies_text(&item, &app_with_files(files)), expected);
}

#[test]
fn dependencies_text_without_file_metrics() {
    let mut item = item_at("lib.rs", "f", 1);
    item.upstream_dependencies = 6;
    let expected = String::from("function dependencies\n")
        + &lv("upstream", "6")
        + &lv("downstream", "0")
        + &lv("blast radius", "6")
        + &lv("critical", "Yes");
    assert_eq!(extract_dependencies_text(&item, &app_with_files(vec![])), expected);
    item.upstream_dependencies = 5;
    item.downstream_dependencies = 10;
    assert!(extract_dependencies_text(&item, &app_with_files(vec![])).ends_with(&lv("critical", "No")));
}

#[test]
fn dependencies_text_highly_coupled_with_long_lists() {
    let item = item_at("hub.rs", "f", 1);
    let mut file = file_item("hub.rs", 12, 6, 33, &["a/1.rs", "b/2.rs", "3.rs", "4.rs", "5.rs", "6.rs", "7.rs"]);
    file.metrics.dependencies_list = vec!["x/y/z.rs".to_string()];
    let text = extract_dependencies_text(&item, &app_with_files(vec![file]));
    let tail = String::from("\ncoupling profile\n")
        + &lv("classification", "[HIGHLY COUPLED]")
        + &lv("afferent (ca)", "12")
        + &lv("efferent (ce)", "6")
        + &lv("instability", "0.33 ███████░░░░░░░░░░░░░")
        + "Warning: High coupling may indicate architectural issues.\n"
        + "\ndependents (who uses this)\n"
        + "  • 1.rs\n  • 2.rs\n  • 3.rs\n  • 4.rs\n  • 5.rs\n"
        + "    (+2 more)\n"
        + "\ndependencies (what this uses)\n"
        + "  • z.rs\n";
    assert!(text.ends_with(&tail), "{}", text);
}

#[test]
fn dependencies_text_notes_on_instability() {
    let item = item_at("leaf.rs", "f", 1);
    let leaf = extract_dependencies_text(&item, &app_with_files(vec![file_item("leaf.rs", 0, 4, 100, &[])]));
    assert!(leaf.contains(&lv("instability", "1.00 ████████████████████")));
    assert!(leaf.ends_with("Note: Unstable leaf - safe to refactor.\n"));
    let core = extract_dependencies_text(&item, &app_with_files(vec![file_item("leaf.rs", 4, 0, 5, &[])]));
    assert!(core.ends_with("Note: Stable core - changes need careful review.\n"));
    let none = extract_dependencies_text(&item, &app_with_files(vec![file_item("leaf.rs", 0, 0, 0, &[])]));
    assert!(!none.contains("coupling profile"));
}

#[test]
fn git_context_text_with_history_and_dampening() {
    let mut item = item_at("a.rs", "f", 1);
    item.contextual_risk = Some(ContextualRisk {
        base_risk: 50,
        contextual_risk: 70,
        contexts: vec![
            RiskContext { provider: "critical_path".to_string(), details: ContextDetails::Other },
            RiskContext {
                provider: "git_history".to_string(),
                details: ContextDetails::Historical {
                    change_frequency: 250,
                    bug_density: 125,
                    age_days: 400,
                    author_count: 3,
                    total_commits: 33,
                    bug_fix_count: 4,
                },
            },
        ],
    });
    item.context_type = Some("Test".to_string());
    item.context_multiplier = Some(300);
    let expected = String::from("change patterns\n")
        + &lv("activity", "33 commits (2.50/month)")
        + &lv("stability", "Moderately Unstable")
        + &lv("fix rate", "4 fixes / 32 changes")
        + &lv("age", "400 days")
        + &lv("contributors", "3")
        + "\nrisk impact\n"
        + &lv("base", "0.5")
        + &lv("contextual", "0.7")
        + &lv("multiplier", "1.40x")
        + "\ncontext dampening\n"
        + &lv("file type", "Test")
        + &lv("reduction", "70.0%")
        + "\n";
    assert_eq!(extract_git_context_text(&item), expected);
}

#[test]
fn git_context_text_without_history_or_base_risk() {
    let mut item = item_at("a.rs", "f", 1);
    item.contextual_risk = Some(ContextualRisk { base_risk: 0, contextual_risk: 30, contexts: vec![] });
    let expected = String::from("risk impact\n")
        + &lv("base", "0.0")
        + &lv("contextual", "0.3")
        + &lv("multiplier", "1.00x")
        + "\n";
    assert_eq!(extract_git_context_text(&item), expected);
}

#[test]
fn git_context_text_negative_reduction_and_no_data() {
    let mut item = item_at("a.rs", "f", 1);
    assert_eq!(extract_git_context_text(&item), "No git context data available\n");
    item.context_type = Some("Generated".to_string());
    item.context_multiplier = Some(1200);
    let expected = String::from("context dampening\n") + &lv("file type", "Generated") + &lv("reduction", "-20.0%") + "\n";
    assert_eq!(extract_git_context_text(&item), expected);
}

#[test]
fn patterns_text_with_several_sections() {
    let mut item = item_at("p.rs", "visit", 7);
    item.entropy_details = Some(EntropyDetails {
        entropy_score: 250,
        pattern_repetition: 600,
        original_complexity: 30,
        adjusted_cognitive: 12,
        dampening_factor: 400,
    });
    item.detected_pattern = Some(DetectedPattern { pattern_type: "Visitor".to_string(), confidence: 855 });
    item.error_swallowing_count = Some(2);
    item.error_swallowing_patterns = Some(vec!["unwrap_or_default".to_string()]);
    let mut df = DataFlowGraph::new();
    df.add_purity_info(
        fid("p.rs", "visit", 7),
        PurityInfo { is_pure: false, confidence: 900, impurity_reasons: vec!["i/o".to_string(), "mutable param".to_string()] },
    );
    let expected = String::from("entropy analysis\n")
        + &lv("entropy", "0.250 low (repetitive)")
        + &lv("repetition", "0.600")
        + &lv("dampening", "0.400x reduction")
        + &lv("cognitive complexity", "30 → 12 (dampened)")
        + "\ndetected patterns\n"
        + &lv("pattern", "Visitor")
        + &lv("confidence", "85.5%")
        + "\npurity analysis\n"
        + &lv("pure", "No")
        + &lv("confidence", "90.0%")
        + &lv("reasons", "i/o, mutable param")
        + "\nerror handling\n"
        + &lv("errors swallowed", "2")
        + &lv("pattern", "unwrap_or_default")
        + "\n";
    assert_eq!(extract_patterns_text(&item, &df), expected);
}

#[test]
fn patterns_text_language_and_framework_sections() {
    let mut item = item_at("p.rs", "f", 1);
    item.pattern_analysis = Some(PatternAnalysis { frameworks_detected: true, trait_impls: 3 });
    item.language_specific = Some(RustSpecificData {
        trait_impl: Some("Display".to_string()),
        async_patterns: 2,
        error_patterns: 0,
        builder_patterns: 1,
    });
    item.entropy_details = Some(EntropyDetails {
        entropy_score: 520,
        pattern_repetition: 100,
        original_complexity: 9,
        adjusted_cognitive: 9,
        dampening_factor: 1000,
    });
    let expected = String::from("entropy analysis\n")
        + &lv("entropy", "0.520 high (chaotic)")
        + &lv("repetition", "0.100")
        + &lv("dampening", "No")
        + "\npattern analysis\n"
        + &lv("frameworks", "Detected")
        + &lv("traits", "3")
        + "\nlanguage-specific (rust)\n"
        + &lv("trait", "Display")
        + &lv("async", "2 detected")
        + &lv("builders", "1 detected")
        + "\n";
    assert_eq!(extract_patterns_text(&item, &DataFlowGraph::new()), expected);
}

#[test]
fn patterns_text_of_god_object_and_empty() {
    let mut item = item_at("g.rs", "[file-scope]", 1);
    assert_eq!(extract_patterns_text(&item, &DataFlowGraph::new()), "No pattern data available\n");
    item.pattern_analysis = Some(PatternAnalysis { frameworks_detected: false, trait_impls: 0 });
    assert_eq!(extract_patterns_text(&item, &DataFlowGraph::new()), "No pattern data available\n");
    let mut g = god_indicators(true, &[], &[]);
    g.aggregated_entropy = Some(EntropyDetails {
        entropy_score: 400,
        pattern_repetition: 250,
        original_complexity: 120,
        adjusted_cognitive: 90,
        dampening_factor: 750,
    });
    g.aggregated_error_swallowing_count = Some(4);
    g.aggregated_error_swallowing_patterns = Some(vec!["ok()".to_string(), "let _ =".to_string()]);
    item.god_object_indicators = Some(g);
    let expected = String::from("god object entropy (aggregated)\n")
        + &lv("entropy", "0.400 medium (typical)")
        + &lv("repetition", "0.250")
        + &lv("total complexity", "120 (original) → 90 (adjusted)")
        + &lv("dampening", "0.750x reduction")
        + "\ngod object error handling (aggregated)\n"
        + &lv("errors swallowed", "4 across all functions")
        + &lv("unique patterns", "2")
        + &lv("pattern", "ok()")
        + &lv("pattern", "let _ =")
        + "\n";
    assert_eq!(extract_patterns_text(&item, &DataFlowGraph::new()), expected);
}

#[test]
fn data_flow_text_with_mutations_and_io() {
    let item = item_at("d.rs", "save", 3);
    let mut df = DataFlowGraph::new();
    df.add_mutation_info(
        fid("d.rs", "save", 3),
        MutationInfo { has_mutations: true, detected_mutations: vec!["self.count += 1".to_string()] },
    );
    df.add_io_operations(
        fid("d.rs", "save", 3),
        vec![IoOperation {
            operation_type: "file read".to_string(),
            line: 42,
            variables: vec!["path".to_string(), "buf".to_string()],
        }],
    );
    let expected = String::from("mutation analysis\n")
        + &lv("has mutations", "yes")
        + "\ndetected mutations (best-effort)\n"
        + "                            self.count += 1\n"
        + "\ni/o operations\n"
        + "  file read at line 42 (variables: path, buf)\n"
        + "\n";
    assert_eq!(extract_data_flow_text(&item, &df), expected);
}

#[test]
fn data_flow_text_latest_information_and_empty() {
    let item = item_at("d.rs", "save", 3);
    let mut df = DataFlowGraph::new();
    assert_eq!(extract_data_flow_text(&item, &df), "No data flow analysis data available for this function.\n");
    df.add_io_operations(fid("d.rs", "save", 3), vec![]);
    assert_eq!(extract_data_flow_text(&item, &df), "No data flow analysis data available for this function.\n");
    df.add_mutation_info(fid("d.rs", "save", 3), MutationInfo { has_mutations: true, detected_mutations: vec![] });
    df.add_mutation_info(fid("d.rs", "save", 4), MutationInfo { has_mutations: true, detected_mutations: vec![] });
    df.add_mutation_info(fid("d.rs", "save", 3), MutationInfo { has_mutations: false, detected_mutations: vec![] });
    let expected = String::from("mutation analysis\n") + &lv("has mutations", "no") + "\n";
    assert_eq!(extract_data_flow_text(&item, &df), expected);
}

#[test]
fn responsibilities_text_of_god_object() {
    let mut item = item_at("g.rs", "[file-scope]", 1);
    item.god_object_indicators =
        Some(god_indicators(true, &["Data Access", "Rendering"], &[("Rendering", 0), ("Data Access", 12)]));
    let expected = String::from("responsibilities\n")
        + &lv("data access", "12 methods")
        + &lv("rendering", "")
        + "\nNote: God objects are structural issues (too many\n"
        + "responsibilities). Focus on splitting by responsibility.\n";
    assert_eq!(extract_responsibilities_text(&item), expected);
}

#[test]
fn responsibilities_text_falls_back_to_category() {
    let mut item = item_at("f.rs", "check", 1);
    assert_eq!(extract_responsibilities_text(&item), String::from("responsibility\n") + &lv("category", "unclassified"));
    item.responsibility_category = Some("Validation".to_string());
    assert_eq!(extract_responsibilities_text(&item), String::from("responsibility\n") + &lv("category", "validation"));
    item.god_object_indicators = Some(god_indicators(false, &[], &[]));
    assert_eq!(extract_responsibilities_text(&item), String::from("responsibility\n") + &lv("category", "validation"));
}

#[test]
fn final_score_text_of_score_breakdown() {
    let mut item = item_at("s.rs", "f", 1);
    assert_eq!(build_final_score_section(&item), String::from("final score\n") + &lv("total", "50.0 [high]") + "\n");
    item.final_score = 12345;
    assert_eq!(build_final_score_section(&item), String::from("final score\n") + &lv("total", "123.4 [critical]") + "\n");
}

#[test]
fn page_text_follows_the_page() {
    let mut item = item_at("src/x.rs", "f", 2);
    item.upstream_dependencies = 1;
    let mut analysis = UnifiedAnalysis::new();
    analysis.items.push(item.clone());
    analysis.file_items.push(file_item("src/x.rs", 2, 2, 50, &[]));
    let app = ResultsApp::new(analysis);
    assert_eq!(
        extract_page_text(&item, DetailPage::Dependencies, &app),
        extract_dependencies_text(&item, &app)
    );
    assert!(extract_page_text(&item, DetailPage::Dependencies, &app).contains("[UTILITY MODULE]"));
    assert_eq!(
        extract_page_text(&item, DetailPage::Responsibilities, &app),
        String::from("responsibility\n") + &lv("category", "unclassified")
    );
    assert!(extract_page_text(&item, DetailPage::ScoreBreakdown, &app).starts_with("final score\n"));
    assert!(extract_page_text(&item, DetailPage::Overview, &app).starts_with("location\n"));
}

#[test]
fn recorded_information_is_what_a_lookup_gives() {
    let mut df = DataFlowGraph::new();
    let f = FunctionId::new("a.rs", "f", 1);
    let g = FunctionId::new("a.rs", "g", 1);
    df.add_purity_info(fid("a.rs", "f", 1), PurityInfo { is_pure: true, confidence: 500, impurity_reasons: vec![] });
    assert!(df.get_purity_info(&g).is_none());
    assert!(!df.has_purity_info(&g));
    df.add_purity_info(fid("a.rs", "g", 1), PurityInfo { is_pure: false, confidence: 700, impurity_reasons: vec![] });
    assert_eq!(df.get_purity_info(&f).unwrap().confidence, 500);
    assert_eq!(df.get_purity_info(&g).unwrap().confidence, 700);
    df.add_purity_info(fid("a.rs", "f", 1), PurityInfo { is_pure: false, confidence: 100, impurity_reasons: vec![] });
    assert_eq!(df.get_purity_info(&f).unwrap().confidence, 100);
    assert_eq!(df.get_purity_info(&g).unwrap().confidence, 700);
    assert!(df.has_purity_info(&g));
    assert!(!df.has_mutation_info(&f));
}

#[test]
fn every_page_has_text_even_without_data() {
    let item = item_at("e.rs", "f", 1);
    let mut analysis = UnifiedAnalysis::new();
    analysis.items.push(item.clone());
    let app = ResultsApp::new(analysis);
    for index in 0..7 {
        let page = DetailPage::from_index(index).unwrap();
        assert!(!extract_page_text(&item, page, &app).is_empty(), "{:?}", page);
    }
}

#[test]
fn test_build_final_score_section() {
    let item = UnifiedDebtItem::new(
        Location::new("test.rs", "test_function", 10),
        DebtType::ComplexityHotspot { cyclomatic: 15, cognitive: 25 },
        6500,
    );
    let content = build_final_score_section(&item);
    assert!(!content.is_empty());
    assert!(content.contains("65.0"));
    assert!(content.contains("high")); // 50.0-69.9 is High severity
}

/// An item with git history; the commit and fix counts follow from the
/// frequency (hundredths per month), age and bug density (thousandths).
fn item_with_git_context(change_frequency: u32, bug_density: u32, age_days: u32, author_count: usize) -> UnifiedDebtItem {
    let total_commits = std::cmp::max(((change_frequency as f64 / 100.0) * age_days as f64 / 30.0).round() as u32, 1);
    let changes = total_commits.saturating_sub(1);
    let bug_fix_count = ((bug_density as f64 / 1000.0) * changes as f64).round() as u32;
    let mut item = item_at("test.rs", "test_fn", 1);
    item.contextual_risk = Some(ContextualRisk {
        base_risk: 1000,
        contextual_risk: 2500,
        contexts: vec![RiskContext {
            provider: "git_history".to_string(),
            details: ContextDetails::Historical {
                change_frequency,
                bug_density,
                age_days,
                author_count,
                total_commits,
                bug_fix_count,
            },
        }],
    });
    item
}

#[test]
fn test_build_page_lines_with_git_context() {
    let item = item_with_git_context(250, 150, 100, 3);
    let text = extract_git_context_text(&item);
    assert!(text.contains("commits") && text.contains("2.50/month"), "got {}", text);
    assert!(text.contains("Moderately Unstable"));
    assert!(text.contains("fix") && text.contains("change"), "got {}", text);
    assert!(text.contains("100 days"));
    assert!(text.contains("3"));
    assert!(text.contains(&lv("activity", "8 commits (2.50/month)")));
    assert!(text.contains(&lv("fix rate", "1 fix / 7 changes")));
}

#[test]
fn test_build_page_lines_stability_thresholds() {
    assert!(extract_git_context_text(&item_with_git_context(50, 0, 365, 1)).contains("Stable"));
    assert!(extract_git_context_text(&item_with_git_context(300, 0, 100, 2)).contains("Moderately Unstable"));
    assert!(extract_git_context_text(&item_with_git_context(700, 500, 30, 5)).contains("Highly Unstable"));
}

#[test]
fn test_build_page_lines_risk_multiplier() {
    let text = extract_git_context_text(&item_with_git_context(200, 100, 50, 2));
    assert!(text.contains("10.0"));
    assert!(text.contains("25.0"));
    assert!(text.contains("2.50x"));
}

#[test]
fn test_build_page_lines_no_context() {
    let item = item_at("test.rs", "test_fn", 1);
    assert!(extract_git_context_text(&item).contains("No git context data available"));
}

#[test]
fn test_build_page_lines_zero_base_risk() {
    let mut item = item_with_git_context(100, 0, 10, 1);
    if let Some(ref mut risk) = item.contextual_risk {
        risk.base_risk = 0;
        risk.contextual_risk = 1000;
    }
    assert!(extract_git_context_text(&item).contains("1.00x"));
}

#[test]
fn git_activity_of_a_single_commit() {
    let text = extract_git_context_text(&item_with_git_context(100, 0, 10, 1));
    assert!(text.contains(&lv("activity", "1 commit (1.00/month)")));
    assert!(text.contains(&lv("fix rate", "no changes since intro")));
}

fn item_with_dependencies() -> UnifiedDebtItem {
    let mut item = item_at("src/main.rs", "target", 10);
    item.upstream_dependencies = 6;
    item.downstream_dependencies = 6;
    item.upstream_callers = (1..=6).map(|n| format!("src/callers/caller{n}.rs:caller{n}")).collect();
    item.downstream_callees = (1..=6).map(|n| format!("src/callees/callee{n}.rs:callee{n}")).collect();
    item
}

#[test]
fn dependencies_page_lists_all_callers_and_callees() {
    let item = item_with_dependencies();
    let text = extract_function_dependencies_text(&item);
    assert!(text.contains("caller6.rs:caller6"), "{text}");
    assert!(text.contains("callee6.rs:callee6"), "{text}");
    assert!(!text.contains("(+"), "{text}");
}

#[test]
fn dependencies_page_shows_the_function_coupling_profile() {
    let item = item_with_dependencies();
    let mut expected = String::from("function dependencies\n")
        + &lv("upstream", "6")
        + &lv("downstream", "6")
        + &lv("blast radius", "12")
        + &lv("critical", "Yes")
        + "\ncoupling profile\n"
        + &lv("classification", "[UTILITY MODULE]")
        + &lv("afferent (ca)", "6")
        + &lv("efferent (ce)", "6")
        + &lv("instability", &format!("0.50 {}{}", "█".repeat(10), "░".repeat(10)))
        + "\ndependents (who calls this)\n";
    for n in 1..=6 {
        expected += &format!("  • caller{n}.rs:caller{n}\n");
    }
    expected += "\ndependencies (what this calls)\n";
    for n in 1..=6 {
        expected += &format!("  • callee{n}.rs:callee{n}\n");
    }
    assert_eq!(extract_function_dependencies_text(&item), expected);
    let app = ResultsApp::new(UnifiedAnalysis::new());
    assert_eq!(extract_page_text(&item, DetailPage::Dependencies, &app), expected);
}

#[test]
fn function_coupling_class_and_notes() {
    let mut item = item_at("a.rs", "f", 1);
    item.upstream_dependencies = 10;
    item.downstream_dependencies = 1;
    let text = extract_function_dependencies_text(&item);
    assert!(text.contains(&lv("classification", "[STABLE CORE]")));
    assert!(text.contains("Note: Stable core - changes need careful review.\n"));
    item.upstream_dependencies = 0;
    item.downstream_dependencies = 8;
    let text = extract_function_dependencies_text(&item);
    assert!(text.contains(&lv("classification", "[LEAF MODULE]")));
    assert!(text.contains("Note: Unstable leaf - safe to refactor.\n"));
    item.upstream_dependencies = 1;
    item.downstream_dependencies = 7;
    let text = extract_function_dependencies_text(&item);
    assert!(text.contains(&format!("0.88 {}{}", "█".repeat(18), "░".repeat(2))));
    item.upstream_dependencies = 0;
    item.downstream_dependencies = 0;
    assert_eq!(extract_function_dependencies_text(&item).lines().count(), 5);
}

#[test]
fn responsibilities_are_lowered_beyond_ascii() {
    let mut item = item_at("f.rs", "check", 1);
    item.responsibility_category = Some("ÉTAT Ω".to_string());
    assert_eq!(extract_responsibilities_text(&item), String::from("responsibility\n") + &lv("category", "état ω"));
    item.god_object_indicators = Some(god_indicators(false, &["Ÿ Données"], &[("Ÿ Données", 2)]));
    assert_eq!(extract_responsibilities_text(&item), String::from("responsibilities\n") + &lv("ÿ données", "2 methods"));
}
