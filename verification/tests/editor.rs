use debtmap_tui::editor::{arguments, with_suspended_tui};
use std::cell::RefCell;

fn record_step(events: &RefCell<Vec<&str>>, name: &'static str, fail: bool) -> anyhow::Result<()> {
    events.borrow_mut().push(name);
    if fail {
        return Err(anyhow::Error::msg(format!("{name} failed")));
    }
    Ok(())
}

#[test]
fn editor_session_restores_after_success_or_failure() {
    for fail in [false, true] {
        let events = RefCell::new(Vec::new());
        let result = with_suspended_tui(
            || record_step(&events, "suspend", false),
            || record_step(&events, "launch", fail),
            || record_step(&events, "resume", false),
        );
        assert_eq!(*events.borrow(), ["suspend", "launch", "resume"]);
        assert_eq!(result.is_err(), fail);
        if fail {
            assert_eq!(result.unwrap_err().to_string(), "launch failed");
        }
    }
}

#[test]
fn failed_suspension_prevents_launch() {
    let events = RefCell::new(Vec::new());
    let result = with_suspended_tui(
        || record_step(&events, "suspend", true),
        || record_step(&events, "launch", false),
        || record_step(&events, "resume", false),
    );
    assert_eq!(*events.borrow(), ["suspend"]);
    assert_eq!(result.unwrap_err().to_string(), "suspend failed");
}

#[test]
fn restoration_errors_take_priority() {
    for fail in [false, true] {
        let events = RefCell::new(Vec::new());
        let result = with_suspended_tui(
            || record_step(&events, "suspend", false),
            || record_step(&events, "launch", fail),
            || record_step(&events, "resume", true),
        );
        assert_eq!(*events.borrow(), ["suspend", "launch", "resume"]);
        assert_eq!(result.unwrap_err().to_string(), "resume failed");
    }
}

const EDITORS: &[(&str, &[&str])] = &[
    ("vim", &["+42", "my project/test.rs"]),
    ("nvim", &["+42", "my project/test.rs"]),
    ("vi", &["+42", "my project/test.rs"]),
    ("emacs", &["+42", "my project/test.rs"]),
    ("nano", &["+42", "my project/test.rs"]),
    ("code", &["--goto", "my project/test.rs:42"]),
    ("code-insiders", &["--goto", "my project/test.rs:42"]),
    ("subl", &["my project/test.rs:42"]),
    ("sublime", &["my project/test.rs:42"]),
    ("sublime_text", &["my project/test.rs:42"]),
    ("hx", &["my project/test.rs:42"]),
    ("helix", &["my project/test.rs:42"]),
];

#[test]
fn supported_editors_receive_line_arguments() {
    let path = "my project/test.rs";
    for (editor, expected) in EDITORS {
        assert_eq!(arguments(editor, path, Some(42)), *expected, "{editor}");
    }
}

#[test]
fn missing_line_passes_only_the_path() {
    let path = "my project/test.rs";
    for (editor, _) in EDITORS {
        assert_eq!(arguments(editor, path, None), [path]);
    }
}

#[test]
fn unrecognized_executables_pass_only_the_path() {
    let path = "my project/test.rs";
    for editor in ["custom", "/usr/bin/vim", "vim -f", ""] {
        for line in [None, Some(42)] {
            assert_eq!(arguments(editor, path, line), [path]);
        }
    }
}

#[test]
fn zero_line_is_preserved() {
    let path = "test.rs";
    assert_eq!(arguments("vim", path, Some(0)), ["+0", "test.rs"]);
    assert_eq!(arguments("code", path, Some(0)), ["--goto", "test.rs:0"]);
    assert_eq!(arguments("hx", path, Some(0)), ["test.rs:0"]);
}
