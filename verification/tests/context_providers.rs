use debtmap_tui::context_providers::{enabled_context_providers, get_default_providers};

fn names(v: &[&str]) -> Vec<String> {
    v.iter().map(|s| s.to_string()).collect()
}

#[test]
fn context_off_runs_no_provider() {
    assert_eq!(enabled_context_providers(false, Some(names(&["dependency"])), None), None);
}

#[test]
fn default_providers_run_when_none_are_named() {
    assert_eq!(get_default_providers(), names(&["critical_path", "dependency", "git_history"]));
    assert_eq!(
        enabled_context_providers(true, None, None),
        Some(names(&["critical_path", "dependency", "git_history"]))
    );
}

#[test]
fn disabled_providers_are_left_out_in_order() {
    assert_eq!(
        enabled_context_providers(true, None, Some(names(&["dependency"]))),
        Some(names(&["critical_path", "git_history"]))
    );
    assert_eq!(
        enabled_context_providers(true, Some(names(&["git_history", "custom", "git_history"])), Some(names(&["custom"]))),
        Some(names(&["git_history", "git_history"]))
    );
    assert_eq!(enabled_context_providers(true, Some(vec![]), None), Some(vec![]));
}
