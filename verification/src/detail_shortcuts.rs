//! Display metadata of the detail view's shortcuts: what the help overlay
//! and the condensed footer show, with the key presses each entry stands
//! for.
use vstd::prelude::*;
use crate::detail_actions::DetailAction;
use crate::detail_page::DetailPage;
use crate::keys::{KeyCode, KeyEvent, KeyModifiers};

verus! {

/// Help section a detail shortcut is shown in.
#[derive(Debug, Clone, Copy, PartialEq, Eq, Structural)]
pub enum DetailShortcutSection {
    Navigation,
    Scrolling,
    Actions,
}

/// A key press and the action the shortcut entry names for it.
#[derive(Debug, Clone, Copy, PartialEq, Eq, Structural)]
pub struct DetailShortcutBinding {
    pub key: KeyEvent,
    pub action: DetailAction,
}

/// A displayed detail shortcut: its keys, what it does, its help section,
/// the key presses it stands for, and its condensed footer text, if any.
pub struct DetailShortcut {
    pub keys: &'static str,
    pub description: &'static str,
    pub section: DetailShortcutSection,
    pub bindings: Vec<DetailShortcutBinding>,
    pub footer: Option<(&'static str, &'static str)>,
}

/// A shortcut as plain values.
pub type ShortcutEntry = (
    Seq<char>,
    Seq<char>,
    DetailShortcutSection,
    Seq<DetailShortcutBinding>,
    Option<(Seq<char>, Seq<char>)>,
);

/// The plain values of a shortcut.
pub open spec fn entry_of(s: DetailShortcut) -> ShortcutEntry {
    (
        s.keys@,
        s.description@,
        s.section,
        s.bindings@,
        match s.footer {
            Some(f) => Some((f.0@, f.1@)),
            None => None,
        },
    )
}

/// A binding of a key without modifiers.
pub open spec fn plain(code: KeyCode, action: DetailAction) -> DetailShortcutBinding {
    DetailShortcutBinding { key: KeyEvent { code, modifiers: KeyModifiers { bits: 0 } }, action }
}

/// A binding of a key with the control key held.
pub open spec fn with_control(code: KeyCode, action: DetailAction) -> DetailShortcutBinding {
    DetailShortcutBinding { key: KeyEvent { code, modifiers: KeyModifiers { bits: 2 } }, action }
}

/// The detail shortcuts, in display order.
pub open spec fn shortcut_table() -> Seq<ShortcutEntry> {
    seq![
        ("Esc/q/h/⌫"@, "Back to list"@, DetailShortcutSection::Navigation, seq![
            plain(KeyCode::Esc, DetailAction::NavigateBack),
            plain(KeyCode::Char('q'), DetailAction::NavigateBack),
            plain(KeyCode::Char('h'), DetailAction::NavigateBack),
            plain(KeyCode::Backspace, DetailAction::NavigateBack),
        ], Some(("q/Esc"@, "Back"@))),
        ("←/→/Tab/⇧Tab/l"@, "Previous/next page"@, DetailShortcutSection::Navigation, seq![
            plain(KeyCode::Left, DetailAction::PrevPage),
            plain(KeyCode::Right, DetailAction::NextPage),
            plain(KeyCode::Tab, DetailAction::NextPage),
            plain(KeyCode::BackTab, DetailAction::PrevPage),
            plain(KeyCode::Char('l'), DetailAction::NextPage),
        ], Some(("←/→"@, "Pages"@))),
        ("1-8"@, "Jump to page"@, DetailShortcutSection::Navigation, seq![
            plain(KeyCode::Char('1'), DetailAction::JumpToPage(DetailPage::Overview)),
            plain(KeyCode::Char('2'), DetailAction::JumpToPage(DetailPage::ScoreBreakdown)),
            plain(KeyCode::Char('3'), DetailAction::JumpToPage(DetailPage::Context)),
            plain(KeyCode::Char('4'), DetailAction::JumpToPage(DetailPage::Dependencies)),
            plain(KeyCode::Char('5'), DetailAction::JumpToPage(DetailPage::GitContext)),
            plain(KeyCode::Char('6'), DetailAction::JumpToPage(DetailPage::Patterns)),
            plain(KeyCode::Char('7'), DetailAction::JumpToPage(DetailPage::DataFlow)),
            plain(KeyCode::Char('8'), DetailAction::JumpToPage(DetailPage::Responsibilities)),
        ], None),
        ("↑↓/j/k"@, "Previous/next location"@, DetailShortcutSection::Navigation, seq![
            plain(KeyCode::Up, DetailAction::MoveSelection(-1i32)),
            plain(KeyCode::Down, DetailAction::MoveSelection(1i32)),
            plain(KeyCode::Char('j'), DetailAction::MoveSelection(1i32)),
            plain(KeyCode::Char('k'), DetailAction::MoveSelection(-1i32)),
        ], Some(("j/k"@, "Locations"@))),
        ("[ / ]"@, "Previous/next finding"@, DetailShortcutSection::Navigation, seq![
            plain(KeyCode::Char('['), DetailAction::PrevLocationItem),
            plain(KeyCode::Char(']'), DetailAction::NextLocationItem),
        ], Some(("[ / ]"@, "Findings"@))),
        ("Ctrl+D/U"@, "Scroll half page down/up"@, DetailShortcutSection::Scrolling, seq![
            with_control(KeyCode::Char('d'), DetailAction::ScrollHalfPageDown),
            with_control(KeyCode::Char('u'), DetailAction::ScrollHalfPageUp),
        ], None),
        ("Ctrl+F/B PgDn/PgUp"@, "Scroll full page down/up"@, DetailShortcutSection::Scrolling, seq![
            with_control(KeyCode::Char('f'), DetailAction::ScrollPageDown),
            with_control(KeyCode::Char('b'), DetailAction::ScrollPageUp),
            plain(KeyCode::PageDown, DetailAction::ScrollPageDown),
            plain(KeyCode::PageUp, DetailAction::ScrollPageUp),
        ], None),
        ("g/G"@, "Jump to content top/bottom"@, DetailShortcutSection::Scrolling, seq![
            plain(KeyCode::Char('g'), DetailAction::ScrollToTop),
            plain(KeyCode::Char('G'), DetailAction::ScrollToBottom),
        ], None),
        ("c"@, "Copy current detail page"@, DetailShortcutSection::Actions, seq![
            plain(KeyCode::Char('c'), DetailAction::CopyPage),
        ], None),
        ("C"@, "Copy full finding as LLM markdown"@, DetailShortcutSection::Actions, seq![
            plain(KeyCode::Char('C'), DetailAction::CopyItemAsLlm),
        ], None),
        ("e/o"@, "Open finding in editor"@, DetailShortcutSection::Actions, seq![
            plain(KeyCode::Char('e'), DetailAction::OpenInEditor),
            plain(KeyCode::Char('o'), DetailAction::OpenInEditor),
        ], None),
        ("?"@, "Show help"@, DetailShortcutSection::Actions, seq![
            plain(KeyCode::Char('?'), DetailAction::ShowHelp),
        ], Some(("?"@, "Help"@))),
    ]
}

fn shortcut(
    keys: &'static str,
    description: &'static str,
    section: DetailShortcutSection,
    bindings: Vec<DetailShortcutBinding>,
    footer: Option<(&'static str, &'static str)>,
) -> (r: DetailShortcut)
    ensures
        r.keys == keys,
        r.description == description,
        r.section == section,
        r.bindings@ == bindings@,
        r.footer == footer,
{
    DetailShortcut { keys, description, section, bindings, footer }
}

fn bind(code: KeyCode, action: DetailAction) -> (r: DetailShortcutBinding)
    ensures
        r == plain(code, action),
{
    DetailShortcutBinding { key: KeyEvent::new(code, KeyModifiers::none()), action }
}

fn bind_control(code: KeyCode, action: DetailAction) -> (r: DetailShortcutBinding)
    ensures
        r == with_control(code, action),
{
    DetailShortcutBinding { key: KeyEvent::new(code, KeyModifiers::control()), action }
}

/// The detail shortcuts shown by the help overlay and the condensed footer.
#[verifier::rlimit(60)]
pub fn detail_shortcuts() -> (r: Vec<DetailShortcut>)
    ensures
        r@.map_values(|s: DetailShortcut| entry_of(s)) == shortcut_table(),
{
    let r = vec![
        shortcut("Esc/q/h/⌫", "Back to list", DetailShortcutSection::Navigation, vec![
            bind(KeyCode::Esc, DetailAction::NavigateBack),
            bind(KeyCode::Char('q'), DetailAction::NavigateBack),
            bind(KeyCode::Char('h'), DetailAction::NavigateBack),
            bind(KeyCode::Backspace, DetailAction::NavigateBack),
        ], Some(("q/Esc", "Back"))),
        shortcut("←/→/Tab/⇧Tab/l", "Previous/next page", DetailShortcutSection::Navigation, vec![
            bind(KeyCode::Left, DetailAction::PrevPage),
            bind(KeyCode::Right, DetailAction::NextPage),
            bind(KeyCode::Tab, DetailAction::NextPage),
            bind(KeyCode::BackTab, DetailAction::PrevPage),
            bind(KeyCode::Char('l'), DetailAction::NextPage),
        ], Some(("←/→", "Pages"))),
        shortcut("1-8", "Jump to page", DetailShortcutSection::Navigation, vec![
            bind(KeyCode::Char('1'), DetailAction::JumpToPage(DetailPage::Overview)),
            bind(KeyCode::Char('2'), DetailAction::JumpToPage(DetailPage::ScoreBreakdown)),
            bind(KeyCode::Char('3'), DetailAction::JumpToPage(DetailPage::Context)),
            bind(KeyCode::Char('4'), DetailAction::JumpToPage(DetailPage::Dependencies)),
            bind(KeyCode::Char('5'), DetailAction::JumpToPage(DetailPage::GitContext)),
            bind(KeyCode::Char('6'), DetailAction::JumpToPage(DetailPage::Patterns)),
            bind(KeyCode::Char('7'), DetailAction::JumpToPage(DetailPage::DataFlow)),
            bind(KeyCode::Char('8'), DetailAction::JumpToPage(DetailPage::Responsibilities)),
        ], None),
        shortcut("↑↓/j/k", "Previous/next location", DetailShortcutSection::Navigation, vec![
            bind(KeyCode::Up, DetailAction::MoveSelection(-1)),
            bind(KeyCode::Down, DetailAction::MoveSelection(1)),
            bind(KeyCode::Char('j'), DetailAction::MoveSelection(1)),
            bind(KeyCode::Char('k'), DetailAction::MoveSelection(-1)),
        ], Some(("j/k", "Locations"))),
        shortcut("[ / ]", "Previous/next finding", DetailShortcutSection::Navigation, vec![
            bind(KeyCode::Char('['), DetailAction::PrevLocationItem),
            bind(KeyCode::Char(']'), DetailAction::NextLocationItem),
        ], Some(("[ / ]", "Findings"))),
        shortcut("Ctrl+D/U", "Scroll half page down/up", DetailShortcutSection::Scrolling, vec![
            bind_control(KeyCode::Char('d'), DetailAction::ScrollHalfPageDown),
            bind_control(KeyCode::Char('u'), DetailAction::ScrollHalfPageUp),
        ], None),
        shortcut("Ctrl+F/B PgDn/PgUp", "Scroll full page down/up", DetailShortcutSection::Scrolling, vec![
            bind_control(KeyCode::Char('f'), DetailAction::ScrollPageDown),
            bind_control(KeyCode::Char('b'), DetailAction::ScrollPageUp),
            bind(KeyCode::PageDown, DetailAction::ScrollPageDown),
            bind(KeyCode::PageUp, DetailAction::ScrollPageUp),
        ], None),
        shortcut("g/G", "Jump to content top/bottom", DetailShortcutSection::Scrolling, vec![
            bind(KeyCode::Char('g'), DetailAction::ScrollToTop),
            bind(KeyCode::Char('G'), DetailAction::ScrollToBottom),
        ], None),
        shortcut("c", "Copy current detail page", DetailShortcutSection::Actions, vec![
            bind(KeyCode::Char('c'), DetailAction::CopyPage),
        ], None),
        shortcut("C", "Copy full finding as LLM markdown", DetailShortcutSection::Actions, vec![
            bind(KeyCode::Char('C'), DetailAction::CopyItemAsLlm),
        ], None),
        shortcut("e/o", "Open finding in editor", DetailShortcutSection::Actions, vec![
            bind(KeyCode::Char('e'), DetailAction::OpenInEditor),
            bind(KeyCode::Char('o'), DetailAction::OpenInEditor),
        ], None),
        shortcut("?", "Show help", DetailShortcutSection::Actions, vec![
            bind(KeyCode::Char('?'), DetailAction::ShowHelp),
        ], Some(("?", "Help"))),
    ];
    assert(r@.map_values(|s: DetailShortcut| entry_of(s)) =~~= shortcut_table());
    r
}

/// The (keys, description) pairs of the shortcuts of a section, in order.
pub open spec fn section_pairs(table: Seq<ShortcutEntry>, section: DetailShortcutSection) -> Seq<(Seq<char>, Seq<char>)>
    decreases table.len(),
{
    if table.len() == 0 {
        Seq::empty()
    } else {
        let rest = section_pairs(table.drop_last(), section);
        let e = table.last();
        if e.2 == section {
            rest.push((e.0, e.1))
        } else {
            rest
        }
    }
}

} // verus!
