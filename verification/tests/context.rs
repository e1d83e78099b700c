use debtmap_tui::context::{format_context_for_clipboard, format_primary_for_clipboard, format_relationship};
use debtmap_tui::item::{ContextRelationship, ContextSuggestion, FileRange, RelatedContext};

fn sample_context() -> ContextSuggestion {
    ContextSuggestion {
        primary: FileRange {
            file: "src/main.rs".to_string(),
            start_line: 10,
            end_line: 50,
            symbol: Some("main".to_string()),
        },
        related: vec![
            RelatedContext {
                range: FileRange {
                    file: "src/lib.rs".to_string(),
                    start_line: 100,
                    end_line: 150,
                    symbol: Some("helper".to_string()),
                },
                relationship: ContextRelationship::Callee,
                reason: "Called by main".to_string(),
            },
            RelatedContext {
                range: FileRange { file: "tests/test.rs".to_string(), start_line: 1, end_line: 20, symbol: None },
                relationship: ContextRelationship::TestCode,
                reason: "Test coverage".to_string(),
            },
        ],
        total_lines: 111,
        completeness_confidence: 850,
    }
}

#[test]
fn format_context_includes_primary() {
    let context = sample_context();
    let text = format_context_for_clipboard(&context);
    assert!(text.contains("Primary: src/main.rs:10-50"));
    assert!(text.contains("Symbol: main"));
}

#[test]
fn format_context_includes_related() {
    let context = sample_context();
    let text = format_context_for_clipboard(&context);
    assert!(text.contains("Related (Callee): src/lib.rs:100-150"));
    assert!(text.contains("Related (Test): tests/test.rs:1-20"));
}

#[test]
fn format_context_includes_summary() {
    let context = sample_context();
    let text = format_context_for_clipboard(&context);
    assert!(text.contains("111 lines"));
    assert!(text.contains("85% confidence"));
}

#[test]
fn format_primary_simple() {
    let context = sample_context();
    let text = format_primary_for_clipboard(&context);
    assert_eq!(text, "src/main.rs:10-50 (main)");
}

#[test]
fn format_relationship_labels() {
    assert_eq!(format_relationship(&ContextRelationship::Caller), "Caller");
    assert_eq!(format_relationship(&ContextRelationship::Callee), "Callee");
    assert_eq!(format_relationship(&ContextRelationship::TypeDefinition), "Type");
    assert_eq!(format_relationship(&ContextRelationship::TestCode), "Test");
    assert_eq!(format_relationship(&ContextRelationship::SiblingMethod), "Sibling");
    assert_eq!(format_relationship(&ContextRelationship::TraitDefinition), "Trait");
    assert_eq!(format_relationship(&ContextRelationship::ModuleHeader), "Module");
}

#[test]
fn format_context_whole_text() {
    let context = sample_context();
    let text = format_context_for_clipboard(&context);
    assert_eq!(
        text,
        "Primary: src/main.rs:10-50\n  Symbol: main\nRelated (Callee): src/lib.rs:100-150\n  Reason: Called by main\nRelated (Test): tests/test.rs:1-20\n  Reason: Test coverage\n\nTotal: 111 lines, 85% confidence\n"
    );
}

#[test]
fn format_primary_without_symbol_and_empty_reason() {
    let context = ContextSuggestion {
        primary: FileRange { file: "a.rs".to_string(), start_line: 0, end_line: 3, symbol: None },
        related: vec![RelatedContext {
            range: FileRange { file: "b.rs".to_string(), start_line: 4, end_line: 5, symbol: None },
            relationship: ContextRelationship::Caller,
            reason: String::new(),
        }],
        total_lines: 7,
        completeness_confidence: 1000,
    };
    assert_eq!(format_primary_for_clipboard(&context), "a.rs:0-3");
    assert_eq!(
        format_context_for_clipboard(&context),
        "Primary: a.rs:0-3\nRelated (Caller): b.rs:4-5\n\nTotal: 7 lines, 100% confidence\n"
    );
}
