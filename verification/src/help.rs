//! The help overlay: which view it was opened from, and its lines of text,
//! grouped in titled sections of key bindings.
use vstd::prelude::*;
use crate::page_extract::views;
use crate::page_text::{padded, spaces};
use crate::text::{push_char, push_str};
use crate::view_mode::ViewMode;
use crate::detail_shortcuts::{DetailShortcut, DetailShortcutSection, detail_shortcuts, entry_of, section_pairs, shortcut_table};

verus! {

/// The view the help overlay was opened from.
#[derive(Debug, Clone, Copy, PartialEq, Eq, Structural)]
pub enum HelpOrigin {
    List,
    Detail,
}

/// A key binding shown in the help: its keys and what they do.
pub type Shortcut = (&'static str, &'static str);

/// A titled section of key bindings.
pub type HelpSection = (&'static str, Vec<Shortcut>);

/// The origin of the help: the detail view when it was the last view before
/// the help, the list otherwise.
pub open spec fn origin_of(history: Seq<ViewMode>) -> HelpOrigin {
    if history.len() > 0 && history.last() == ViewMode::Detail {
        HelpOrigin::Detail
    } else {
        HelpOrigin::List
    }
}

/// A key binding as text: its keys and description.
pub type ShortcutView = (Seq<char>, Seq<char>);

/// A section as text: its title and key bindings.
pub type SectionView = (Seq<char>, Seq<ShortcutView>);

/// The text of some sections.
pub open spec fn section_views(sections: Seq<HelpSection>) -> Seq<SectionView> {
    sections.map_values(|s: HelpSection| (s.0@, s.1@.map_values(|k: Shortcut| (k.0@, k.1@))))
}

/// A key binding line: the keys padded to 22 columns after a two-space
/// indent, then the description.
pub open spec fn shortcut_text(keys: Seq<char>, description: Seq<char>) -> Seq<char> {
    "  "@ + padded(keys, 22) + description
}

/// The lines of the key bindings of a section.
pub open spec fn shortcut_texts(shortcuts: Seq<ShortcutView>) -> Seq<Seq<char>> {
    shortcuts.map_values(|s: ShortcutView| shortcut_text(s.0, s.1))
}

/// The lines of a section: a blank line before every section but the first,
/// the title, then one line per key binding.
pub open spec fn section_text(title: Seq<char>, shortcuts: Seq<ShortcutView>, leading_blank: bool) -> Seq<
    Seq<char>,
> {
    (if leading_blank { seq![Seq::<char>::empty()] } else { Seq::empty() }) + seq![title] + shortcut_texts(shortcuts)
}

/// The lines of some sections, one after another.
pub open spec fn sections_text(sections: Seq<SectionView>) -> Seq<Seq<char>>
    decreases sections.len(),
{
    if sections.len() == 0 {
        Seq::empty()
    } else {
        sections_text(sections.drop_last()) + section_text(
            sections.last().0,
            sections.last().1,
            sections.len() > 1,
        )
    }
}

/// The closing hint at the bottom of the help.
pub open spec fn close_hint_text() -> Seq<char> {
    "Press any key to close"@
}

/// The help lines of some sections: the sections, then the closing hint.
pub open spec fn help_text(sections: Seq<SectionView>) -> Seq<Seq<char>> {
    sections_text(sections).push(close_hint_text())
}

/// The key bindings of the list view, by section.
pub open spec fn list_sections() -> Seq<SectionView> {
    seq![
        ("Navigation"@, seq![
            ("↑↓/j/k"@, "Move selection"@),
            ("g/Home/End"@, "First/last result"@),
            ("PgUp/PgDn"@, "Move one page"@),
            ("Enter"@, "View details"@),
        ]),
        ("Search & Filter"@, seq![
            ("/"@, "Search"@),
            ("s"@, "Sort"@),
            ("f"@, "Filter"@),
            ("G"@, "Group/ungroup locations"@),
        ]),
        ("Actions"@, seq![
            ("c"@, "Copy path"@),
            ("e/o"@, "Open in editor"@),
            ("q"@, "Quit"@),
            ("?"@, "Show help"@),
        ]),
    ]
}

/// The key bindings of the detail view, by section, as the detail shortcut
/// metadata lists them.
pub open spec fn detail_sections() -> Seq<SectionView> {
    seq![
        ("Navigation"@, section_pairs(shortcut_table(), DetailShortcutSection::Navigation)),
        ("Content Scrolling"@, section_pairs(shortcut_table(), DetailShortcutSection::Scrolling)),
        ("Actions"@, section_pairs(shortcut_table(), DetailShortcutSection::Actions)),
    ]
}

/// The key bindings shown for a help origin.
pub open spec fn origin_sections(origin: HelpOrigin) -> Seq<SectionView> {
    match origin {
        HelpOrigin::List => list_sections(),
        HelpOrigin::Detail => detail_sections(),
    }
}

/// The origin of the help overlay, from the navigation history.
pub fn help_origin(history: &Vec<ViewMode>) -> (r: HelpOrigin)
    ensures
        r == origin_of(history@),
{
    if history.len() > 0 && history[history.len() - 1] == ViewMode::Detail {
        HelpOrigin::Detail
    } else {
        HelpOrigin::List
    }
}

/// A key binding line.
pub fn shortcut_line(keys: &str, description: &str) -> (r: String)
    ensures
        r@ == shortcut_text(keys@, description@),
{
    let mut r = String::new();
    push_str(&mut r, "  ");
    push_str(&mut r, keys);
    let n = keys.unicode_len();
    let mut w = n;
    let ghost start = r@;
    assert(spaces(0) =~= Seq::<char>::empty());
    while w < 22
        invariant
            n == keys@.len(),
            n <= w,
            n >= 22 ==> w == n,
            n < 22 ==> w <= 22,
            r@ == start + spaces((w - n) as nat),
        decreases 22 - w,
    {
        push_char(&mut r, ' ');
        assert(spaces((w - n) as nat).push(' ') =~= spaces((w + 1 - n) as nat));
        w = w + 1;
    }
    push_str(&mut r, description);
    proof {
        reveal_strlit("  ");
    }
    assert(r@ =~= shortcut_text(keys@, description@));
    r
}

/// Appends the lines of a section.
fn push_section_lines(lines: &mut Vec<String>, title: &str, shortcuts: &Vec<Shortcut>, leading_blank: bool)
    ensures
        views(final(lines)@) == views(old(lines)@) + section_text(
            title@,
            shortcuts@.map_values(|k: Shortcut| (k.0@, k.1@)),
            leading_blank,
        ),
{
    let ghost start = views(lines@);
    if leading_blank {
        lines.push(String::new());
    }
    lines.push(String::from_str(title));
    let ghost head = views(lines@);
    let ghost sv = shortcuts@.map_values(|k: Shortcut| (k.0@, k.1@));
    assert(head =~= start + (if leading_blank { seq![Seq::<char>::empty()] } else { Seq::empty() }) + seq![title@]);
    let mut i: usize = 0;
    while i < shortcuts.len()
        invariant
            i <= shortcuts.len(),
            sv == shortcuts@.map_values(|k: Shortcut| (k.0@, k.1@)),
            views(lines@) == head + shortcut_texts(sv.take(i as int)),
        decreases shortcuts.len() - i,
    {
        let s = shortcuts[i];
        let line = shortcut_line(s.0, s.1);
        let ghost before = lines@;
        lines.push(line);
        proof {
            assert(views(lines@) =~= views(before).push(line@));
            assert(sv[i as int] == (s.0@, s.1@));
            assert(shortcut_texts(sv.take(i + 1)) =~= shortcut_texts(sv.take(i as int)).push(shortcut_text(s.0@, s.1@)));
        }
        i = i + 1;
    }
    assert(sv.take(sv.len() as int) =~= sv);
    assert(views(lines@) =~= start + section_text(title@, sv, leading_blank));
}

/// The help lines of some sections.
pub fn compose_help_lines(sections: &Vec<HelpSection>) -> (r: Vec<String>)
    ensures
        views(r@) == help_text(section_views(sections@)),
{
    let ghost all = section_views(sections@);
    let mut lines: Vec<String> = Vec::new();
    let mut i: usize = 0;
    assert(views(lines@) =~= sections_text(all.take(0)));
    while i < sections.len()
        invariant
            i <= sections.len(),
            all == section_views(sections@),
            views(lines@) == sections_text(all.take(i as int)),
        decreases sections.len() - i,
    {
        let section = &sections[i];
        push_section_lines(&mut lines, section.0, &section.1, i > 0);
        proof {
            let t = all.take(i + 1);
            assert(t.drop_last() =~= all.take(i as int));
            assert(t.last() == all[i as int]);
        }
        i = i + 1;
    }
    assert(all.take(all.len() as int) =~= all);
    let ghost before = lines@;
    lines.push(close_hint());
    assert(views(lines@) =~= views(before).push(close_hint_text()));
    lines
}

/// The closing hint.
pub fn close_hint() -> (r: String)
    ensures
        r@ == close_hint_text(),
{
    String::from_str("Press any key to close")
}

/// The sections of the help opened from the list.
pub fn list_help_sections() -> (r: Vec<HelpSection>)
    ensures
        section_views(r@) == list_sections(),
{
    let navigation: Vec<Shortcut> = vec![
        ("↑↓/j/k", "Move selection"),
        ("g/Home/End", "First/last result"),
        ("PgUp/PgDn", "Move one page"),
        ("Enter", "View details"),
    ];
    let explore: Vec<Shortcut> = vec![
        ("/", "Search"),
        ("s", "Sort"),
        ("f", "Filter"),
        ("G", "Group/ungroup locations"),
    ];
    let actions: Vec<Shortcut> = vec![
        ("c", "Copy path"),
        ("e/o", "Open in editor"),
        ("q", "Quit"),
        ("?", "Show help"),
    ];
    let r = vec![("Navigation", navigation), ("Search & Filter", explore), ("Actions", actions)];
    assert(section_views(r@) =~~= list_sections());
    r
}

/// The (keys, description) pairs of the shortcuts of one section.
fn section_shortcuts(shortcuts: &Vec<DetailShortcut>, section: DetailShortcutSection) -> (r: Vec<Shortcut>)
    ensures
        r@.map_values(|k: Shortcut| (k.0@, k.1@)) == section_pairs(
            shortcuts@.map_values(|s: DetailShortcut| entry_of(s)),
            section,
        ),
{
    let ghost table = shortcuts@.map_values(|s: DetailShortcut| entry_of(s));
    let mut r: Vec<Shortcut> = Vec::new();
    let mut i: usize = 0;
    while i < shortcuts.len()
        invariant
            i <= shortcuts.len(),
            table == shortcuts@.map_values(|s: DetailShortcut| entry_of(s)),
            r@.map_values(|k: Shortcut| (k.0@, k.1@)) == section_pairs(table.take(i as int), section),
        decreases shortcuts.len() - i,
    {
        proof {
            assert(table.take(i + 1).drop_last() =~= table.take(i as int));
            assert(table.take(i + 1).last() == entry_of(shortcuts@[i as int]));
        }
        if shortcuts[i].section == section {
            r.push((shortcuts[i].keys, shortcuts[i].description));
        }
        assert(r@.map_values(|k: Shortcut| (k.0@, k.1@)) =~= section_pairs(table.take(i + 1), section));
        i = i + 1;
    }
    assert(table.take(shortcuts.len() as int) =~= table);
    r
}

/// The sections of the help opened from the detail view, from the detail
/// shortcut metadata.
pub fn detail_help_sections() -> (r: Vec<HelpSection>)
    ensures
        section_views(r@) == detail_sections(),
{
    let shortcuts = detail_shortcuts();
    let navigation = section_shortcuts(&shortcuts, DetailShortcutSection::Navigation);
    let scrolling = section_shortcuts(&shortcuts, DetailShortcutSection::Scrolling);
    let actions = section_shortcuts(&shortcuts, DetailShortcutSection::Actions);
    let r = vec![("Navigation", navigation), ("Content Scrolling", scrolling), ("Actions", actions)];
    assert(section_views(r@) =~~= detail_sections());
    r
}

/// The help lines for the list view.
pub fn list_help_lines() -> (r: Vec<String>)
    ensures
        views(r@) == help_text(list_sections()),
{
    compose_help_lines(&list_help_sections())
}

/// The help lines for the detail view.
pub fn detail_help_lines() -> (r: Vec<String>)
    ensures
        views(r@) == help_text(detail_sections()),
{
    compose_help_lines(&detail_help_sections())
}

/// The help lines for the view the help was opened from.
pub fn help_lines(origin: HelpOrigin) -> (r: Vec<String>)
    ensures
        views(r@) == help_text(origin_sections(origin)),
{
    match origin {
        HelpOrigin::List => list_help_lines(),
        HelpOrigin::Detail => detail_help_lines(),
    }
}

} // verus!
