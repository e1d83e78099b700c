use debtmap_tui::dsm::{dsm_header_text, DsmMetrics};

fn metrics(cycle_count: usize) -> DsmMetrics {
    DsmMetrics {
        module_count: 12,
        dependency_count: 30,
        cycle_count,
        layering_score: 925,
        density: 2083,
        propagation_cost: 345,
    }
}

fn cycle(modules: &[&str]) -> Vec<String> {
    modules.iter().map(|m| m.to_string()).collect()
}

#[test]
fn dsm_header_without_cycles() {
    let text = dsm_header_text(&metrics(0), &vec![]);
    assert_eq!(
        text,
        "DEPENDENCY STRUCTURE MATRIX  [m] to exit\n\nModules: 12  Dependencies: 30  Cycles: 0\nLayering: 92%  Density: 20.8%  Propagation: 3.4\n"
    );
}

#[test]
fn dsm_header_lists_three_cycles_and_counts_the_rest() {
    let cycles = vec![
        cycle(&["a", "b"]),
        cycle(&["c", "d", "e"]),
        cycle(&["f", "g"]),
        cycle(&["h", "i"]),
        cycle(&["j", "k"]),
    ];
    let text = dsm_header_text(&metrics(5), &cycles);
    assert!(text.ends_with("\nCycles: a→b, c→d→e, f→g (+2 more)\n"), "{text}");
    let text = dsm_header_text(&metrics(1), &vec![cycle(&["x", "y"])]);
    assert!(text.ends_with("\nCycles: x→y\n"), "{text}");
}
