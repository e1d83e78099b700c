use debtmap_tui::dependencies::derive_coupling_classification;
use debtmap_tui::git_context::classify_stability;
use debtmap_tui::keys::{is_quit_key, KeyCode, KeyEvent, KeyModifiers};
use debtmap_tui::patterns::entropy_description;

fn make_key_event(code: KeyCode, modifiers: KeyModifiers) -> KeyEvent {
    KeyEvent::new(code, modifiers)
}

#[test]
fn is_quit_key_detects_ctrl_c() {
    let key = make_key_event(KeyCode::Char('c'), KeyModifiers::control());
    assert!(is_quit_key(&key));
}

#[test]
fn is_quit_key_rejects_plain_c() {
    let key = make_key_event(KeyCode::Char('c'), KeyModifiers::none());
    assert!(!is_quit_key(&key));
}

#[test]
fn is_quit_key_rejects_other_keys_with_ctrl() {
    let key = make_key_event(KeyCode::Char('q'), KeyModifiers::control());
    assert!(!is_quit_key(&key));
}

#[test]
fn is_quit_key_rejects_escape() {
    let key = make_key_event(KeyCode::Esc, KeyModifiers::none());
    assert!(!is_quit_key(&key));
}

#[test]
fn is_quit_key_handles_ctrl_c_with_shift() {
    // Control held together with shift still quits.
    let both = KeyModifiers {
        bits: KeyModifiers::control().bits | KeyModifiers::shift().bits,
    };
    let key = make_key_event(KeyCode::Char('c'), both);
    assert!(is_quit_key(&key));
}

#[test]
fn is_quit_key_rejects_alt_c() {
    let key = make_key_event(KeyCode::Char('c'), KeyModifiers::alt());
    assert!(!is_quit_key(&key));
}

#[test]
fn test_classify_stability() {
    // Change frequencies in hundredths: 0.5, 2.0 and 10.0 a month.
    assert_eq!(classify_stability(50), "Stable");
    assert_eq!(classify_stability(200), "Moderately Unstable");
    assert_eq!(classify_stability(1000), "Highly Unstable");
}

#[test]
fn classify_stability_boundaries() {
    assert_eq!(classify_stability(99), "Stable");
    assert_eq!(classify_stability(100), "Moderately Unstable");
    assert_eq!(classify_stability(499), "Moderately Unstable");
    assert_eq!(classify_stability(500), "Highly Unstable");
}

#[test]
fn test_entropy_description() {
    // Entropy scores in thousandths: 0.1, 0.4 and 0.7.
    assert_eq!(entropy_description(100), "low (repetitive)");
    assert_eq!(entropy_description(400), "medium (typical)");
    assert_eq!(entropy_description(700), "high (chaotic)");
}

#[test]
fn entropy_description_boundaries() {
    assert_eq!(entropy_description(299), "low (repetitive)");
    assert_eq!(entropy_description(300), "medium (typical)");
    assert_eq!(entropy_description(500), "high (chaotic)");
}

#[test]
fn test_derive_coupling_classification() {
    // Instability in hundredths: 0.5, 0.2 and 0.8.
    assert_eq!(derive_coupling_classification(20, 5, 50), "Highly Coupled");
    assert_eq!(derive_coupling_classification(1, 1, 50), "Isolated");
    assert_eq!(derive_coupling_classification(8, 2, 20), "Stable Core");
    assert_eq!(derive_coupling_classification(2, 8, 80), "Leaf Module");
    assert_eq!(derive_coupling_classification(5, 5, 50), "Utility Module");
}

#[test]
fn coupling_classification_boundaries() {
    assert_eq!(derive_coupling_classification(10, 6, 50), "Highly Coupled");
    assert_eq!(derive_coupling_classification(10, 5, 10), "Stable Core");
    assert_eq!(derive_coupling_classification(2, 1, 30), "Utility Module");
    assert_eq!(derive_coupling_classification(1, 2, 70), "Utility Module");
    assert_eq!(derive_coupling_classification(1, 2, 71), "Leaf Module");
}
