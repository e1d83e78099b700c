use debtmap_tui::detail_shortcuts::{detail_shortcuts, DetailShortcutSection};
use debtmap_tui::help::{help_lines, help_origin, shortcut_line, HelpOrigin};
use debtmap_tui::view_mode::ViewMode;

#[test]
fn help_origin_follows_the_last_view() {
    assert_eq!(help_origin(&vec![]), HelpOrigin::List);
    assert_eq!(help_origin(&vec![ViewMode::List]), HelpOrigin::List);
    assert_eq!(help_origin(&vec![ViewMode::List, ViewMode::Detail]), HelpOrigin::Detail);
    assert_eq!(help_origin(&vec![ViewMode::Detail, ViewMode::Search]), HelpOrigin::List);
}

#[test]
fn shortcut_line_pads_keys_to_the_description_column() {
    assert_eq!(shortcut_line("q", "Quit"), format!("  {:<22}{}", "q", "Quit"));
    assert_eq!(shortcut_line("↑↓/j/k", "Move selection"), "  ↑↓/j/k                Move selection");
    let long = "a-very-long-key-combination";
    assert_eq!(shortcut_line(long, "x"), format!("  {}x", long));
}

#[test]
fn list_help_shows_list_controls() {
    let lines = help_lines(HelpOrigin::List);
    assert_eq!(lines[0], "Navigation");
    assert_eq!(lines[1], shortcut_line("↑↓/j/k", "Move selection"));
    assert_eq!(lines[5], "");
    assert_eq!(lines[6], "Search & Filter");
    assert_eq!(lines[11], "");
    assert_eq!(lines[12], "Actions");
    assert_eq!(lines[15], shortcut_line("q", "Quit"));
    assert_eq!(lines.last().unwrap(), "Press any key to close");
    assert_eq!(lines.len(), 18);
    assert!(!lines.iter().any(|l| l.contains("Jump to page")));
}

#[test]
fn detail_help_shows_detail_controls() {
    let lines = help_lines(HelpOrigin::Detail);
    assert_eq!(lines[0], "Navigation");
    assert_eq!(lines[1], shortcut_line("Esc/q/h/⌫", "Back to list"));
    assert_eq!(lines[3], shortcut_line("1-8", "Jump to page"));
    assert_eq!(lines[5], shortcut_line("[ / ]", "Previous/next finding"));
    assert_eq!(lines[6], "");
    assert_eq!(lines[7], "Content Scrolling");
    assert_eq!(lines[8], shortcut_line("Ctrl+D/U", "Scroll half page down/up"));
    assert_eq!(lines[12], "Actions");
    assert_eq!(lines[13], shortcut_line("c", "Copy current detail page"));
    assert_eq!(lines[15], shortcut_line("e/o", "Open finding in editor"));
    assert_eq!(lines.len(), 18);
    assert_eq!(lines[17], "Press any key to close");
    assert!(!lines.iter().any(|l| l.contains("Quit")));
}

#[test]
fn detail_shortcut_metadata_lists_sections_and_footers() {
    let shortcuts = detail_shortcuts();
    assert_eq!(shortcuts.len(), 12);
    let footers: Vec<(&str, &str)> = shortcuts.iter().filter_map(|s| s.footer).collect();
    assert_eq!(footers, vec![("q/Esc", "Back"), ("←/→", "Pages"), ("j/k", "Locations"), ("[ / ]", "Findings"), ("?", "Help")]);
    let scrolling = shortcuts.iter().filter(|s| s.section == DetailShortcutSection::Scrolling).count();
    assert_eq!(scrolling, 3);
    assert_eq!(shortcuts[2].bindings.len(), 8);
}
