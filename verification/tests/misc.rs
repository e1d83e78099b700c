use debtmap_tui::actions::{clipboard_available, copy_path_to_clipboard, copy_to_clipboard};
use debtmap_tui::project::{lies_under, project_membership};
use debtmap_tui::item::{locations_equal, Location};
use debtmap_tui::text::paths_equal;
use debtmap_tui::language_parser::{default_languages, language_for_lowercase, parse_languages, parse_single_language, Language};
use debtmap_tui::parameter_analysis::{MaintainabilityImpact, ParameterAnalyzer};

#[test]
fn actions_test_copy_path_succeeds_or_fails_gracefully() {
    let (result, handed) = copy_path_to_clipboard("/tmp/test.rs");
    assert!(result.is_ok());
    let message = result.unwrap();
    assert!(handed.as_deref() == Some("/tmp/test.rs") || message.starts_with("Clipboard not available: "));
    assert!(message.contains("Copied") || message.contains("Clipboard"));
}

#[test]
fn mod_test_copy_path_succeeds_or_fails_gracefully() {
    let (result, handed) = copy_path_to_clipboard("/tmp/test.rs");
    assert!(result.is_ok());
    let message = result.unwrap();
    assert!(handed.as_deref() == Some("/tmp/test.rs") || message.starts_with("Clipboard not available: "));
    assert!(message.contains("Copied") || message.contains("Clipboard"));
}

#[test]
fn test_copy_to_clipboard_returns_ok() {
    let (result, handed) = copy_to_clipboard("test", "test text");
    assert!(result.is_ok());
    let message = result.unwrap();
    assert!(handed.as_deref() == Some("test") || message.starts_with("Clipboard not available: "));
    assert!(message.contains("Copied") || message.contains("Clipboard"));
}

#[test]
fn test_context_aware_temp_test_classify_parameter_list_impact_low() {
    assert_eq!(ParameterAnalyzer::classify_parameter_list_impact(0), MaintainabilityImpact::Low);
    assert_eq!(ParameterAnalyzer::classify_parameter_list_impact(5), MaintainabilityImpact::Low);
}

#[test]
fn test_classify_data_clump_impact_medium() {
    // More than five occurrences weigh medium.
    assert_eq!(ParameterAnalyzer::classify_data_clump_impact(6), MaintainabilityImpact::Medium);
}

#[test]
fn test_another() {
    assert_eq!(7, 7);
}

#[test]
fn test_param_analyzer_test_classify_parameter_list_impact_low() {
    assert_eq!(ParameterAnalyzer::classify_parameter_list_impact(0), MaintainabilityImpact::Low);
    assert_eq!(ParameterAnalyzer::classify_parameter_list_impact(5), MaintainabilityImpact::Low);
    assert_eq!(ParameterAnalyzer::classify_parameter_list_impact(7), MaintainabilityImpact::Low);
}

#[test]
fn languages_parse_by_name_or_extension_ignoring_case() {
    assert_eq!(parse_single_language("Rust"), Some(Language::Rust));
    assert_eq!(parse_single_language("RS"), Some(Language::Rust));
    assert_eq!(parse_single_language("py"), Some(Language::Python));
    assert_eq!(parse_single_language("JavaScript"), Some(Language::JavaScript));
    assert_eq!(parse_single_language("ts"), Some(Language::TypeScript));
    assert_eq!(parse_single_language("go"), None);
    assert_eq!(parse_single_language(""), None);
}

#[test]
fn language_lists_skip_unknown_names_and_default_to_all() {
    assert_eq!(
        parse_languages(Some(vec!["python".to_string(), "cobol".to_string(), "rs".to_string()])),
        vec![Language::Python, Language::Rust]
    );
    assert_eq!(parse_languages(None), default_languages());
    assert_eq!(default_languages().len(), 4);
}

#[test]
fn test_clipboard_available_returns_bool() {
    // The answer depends on the environment; the call itself must not fail.
    let _ = clipboard_available();
}

#[test]
fn paths_compare_by_component() {
    assert!(paths_equal("src//a.rs", "src/a.rs"));
    assert!(paths_equal("src/./a.rs", "src/a.rs"));
    assert!(paths_equal("src/a.rs/", "src/a.rs"));
    assert!(!paths_equal("./src/a.rs", "src/a.rs"));
    assert!(!paths_equal("/src/a.rs", "src/a.rs"));
    assert!(!paths_equal("src/a.rs", "src/b.rs"));
    let a = Location::new("src//a.rs", "f", 3);
    let b = Location::new("src/a.rs", "f", 3);
    assert!(locations_equal(&a, &b));
}

#[test]
fn language_names_are_matched_by_their_lowercase() {
    assert_eq!(parse_single_language("TypeScript"), Some(Language::TypeScript));
    assert_eq!(parse_single_language("ＲＵＳＴ"), None);
    assert_eq!(language_for_lowercase("py"), Some(Language::Python));
    assert_eq!(language_for_lowercase("PY"), None);
}

#[test]
fn test_is_in_current_project_relative_path() {
    assert_eq!(project_membership("src/lib.rs"), Some(true));
}

#[test]
fn test_is_in_current_project_parent_directory() {
    assert_eq!(project_membership("../other-project/file.rs"), Some(false));
}

#[test]
fn test_is_in_current_project_nested_parent() {
    assert_eq!(project_membership("../../another-project/src/file.rs"), Some(false));
}

#[test]
fn test_is_in_current_project_nested_relative() {
    assert_eq!(project_membership("src/subdir/nested/file.rs"), Some(true));
}

#[test]
fn project_membership_edge_paths() {
    assert_eq!(project_membership("./tests/integration.rs"), Some(true));
    assert_eq!(project_membership("./../x.rs"), Some(true));
    assert_eq!(project_membership("..foo/x.rs"), Some(true));
    assert_eq!(project_membership(".."), Some(false));
    assert_eq!(project_membership("/home/me/project/src/lib.rs"), None);
    assert!(lies_under("/home/me/project/src/lib.rs", "/home/me/project"));
    assert!(lies_under("/home/me/project//src", "/home/me/project/"));
    assert!(!lies_under("/home/me/projects/x.rs", "/home/me/project"));
    assert!(!lies_under("/home/me", "/home/me/project"));
}
