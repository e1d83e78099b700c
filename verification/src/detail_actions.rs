//! Which action a key triggers in the detail view.
use vstd::prelude::*;
use crate::detail_page::DetailPage;
use crate::keys::{KeyCode, KeyEvent};

verus! {

/// Actions that can be triggered from detail view.
#[derive(Debug, Clone, Copy, PartialEq, Eq, Structural)]
pub enum DetailAction {
    /// Navigate back to the previous view.
    NavigateBack,
    /// Navigate to the next available page.
    NextPage,
    /// Navigate to the previous available page.
    PrevPage,
    /// Jump to a specific page (1-indexed digit maps to page).
    JumpToPage(DetailPage),
    /// Move selection up or down in the list (positive moves down).
    MoveSelection(i32),
    /// Cycle to next item at same location.
    NextLocationItem,
    /// Cycle to previous item at same location.
    PrevLocationItem,
    /// Copy all context ranges.
    CopyContext,
    /// Copy primary range only.
    CopyPrimary,
    /// Copy current page content.
    CopyPage,
    /// Copy the item in a form meant for language models.
    CopyItemAsLlm,
    /// Open the current item in an external editor.
    OpenInEditor,
    /// Show help overlay.
    ShowHelp,
    /// Scroll the page content up one row.
    ScrollUp,
    /// Scroll the page content down one row.
    ScrollDown,
    /// Scroll the page content up half a page.
    ScrollHalfPageUp,
    /// Scroll the page content down half a page.
    ScrollHalfPageDown,
    /// Scroll the page content up a page.
    ScrollPageUp,
    /// Scroll the page content down a page.
    ScrollPageDown,
    /// Scroll to the top of the page content.
    ScrollToTop,
    /// Scroll to the bottom of the page content.
    ScrollToBottom,
}

/// Context needed to determine detail view actions.
#[derive(Debug, Clone, Copy, PartialEq, Eq, Structural)]
pub struct DetailActionContext {
    /// The currently displayed detail page.
    pub current_page: DetailPage,
}

impl DetailActionContext {
    /// Create context for a specific page.
    pub fn new(current_page: DetailPage) -> (r: Self)
        ensures
            r.current_page == current_page,
    {
        DetailActionContext { current_page }
    }
}

/// The page a digit key selects, in display order: '1' Overview, '2' Score
/// Breakdown, '3' Context, '4' Dependencies, and so on to '8'
/// Responsibilities.
pub open spec fn digit_page(c: char) -> Option<DetailPage> {
    if c == '1' {
        Some(DetailPage::Overview)
    } else if c == '2' {
        Some(DetailPage::ScoreBreakdown)
    } else if c == '3' {
        Some(DetailPage::Context)
    } else if c == '4' {
        Some(DetailPage::Dependencies)
    } else if c == '5' {
        Some(DetailPage::GitContext)
    } else if c == '6' {
        Some(DetailPage::Patterns)
    } else if c == '7' {
        Some(DetailPage::DataFlow)
    } else if c == '8' {
        Some(DetailPage::Responsibilities)
    } else {
        None
    }
}

/// Map a digit character to a DetailPage (1-indexed); other characters give None.
pub fn page_from_digit(c: char) -> (r: Option<DetailPage>)
    ensures
        r == digit_page(c),
{
    match c {
        '1' => Some(DetailPage::Overview),
        '2' => Some(DetailPage::ScoreBreakdown),
        '3' => Some(DetailPage::Context),
        '4' => Some(DetailPage::Dependencies),
        '5' => Some(DetailPage::GitContext),
        '6' => Some(DetailPage::Patterns),
        '7' => Some(DetailPage::DataFlow),
        '8' => Some(DetailPage::Responsibilities),
        _ => None,
    }
}

/// The action a key triggers in detail view, if any.
pub open spec fn detail_action_for(code: KeyCode, ctx: DetailActionContext) -> Option<DetailAction> {
    match code {
        KeyCode::Esc | KeyCode::Char('q') => Some(DetailAction::NavigateBack),
        KeyCode::Tab | KeyCode::Right | KeyCode::Char('l') => Some(DetailAction::NextPage),
        KeyCode::BackTab | KeyCode::Left | KeyCode::Char('h') => Some(DetailAction::PrevPage),
        KeyCode::Down | KeyCode::Char('j') => Some(DetailAction::MoveSelection(1i32)),
        KeyCode::Up | KeyCode::Char('k') => Some(DetailAction::MoveSelection(-1i32)),
        KeyCode::Char(']') => Some(DetailAction::NextLocationItem),
        KeyCode::Char('[') => Some(DetailAction::PrevLocationItem),
        KeyCode::Char('c') => if ctx.current_page == DetailPage::Context {
            Some(DetailAction::CopyContext)
        } else {
            Some(DetailAction::CopyPage)
        },
        KeyCode::Char('p') => if ctx.current_page == DetailPage::Context {
            Some(DetailAction::CopyPrimary)
        } else {
            None
        },
        KeyCode::Char('e') | KeyCode::Char('o') => Some(DetailAction::OpenInEditor),
        KeyCode::Char('?') => Some(DetailAction::ShowHelp),
        KeyCode::Char(c) => match digit_page(c) {
            Some(p) => Some(DetailAction::JumpToPage(p)),
            None => None,
        },
        _ => None,
    }
}

/// Determine which action a key triggers in detail view.
pub fn classify_detail_key(key: KeyEvent, ctx: DetailActionContext) -> (r: Option<DetailAction>)
    ensures
        r == detail_action_for(key.code, ctx),
{
    match key.code {
        KeyCode::Esc | KeyCode::Char('q') => Some(DetailAction::NavigateBack),
        KeyCode::Tab | KeyCode::Right | KeyCode::Char('l') => Some(DetailAction::NextPage),
        KeyCode::BackTab | KeyCode::Left | KeyCode::Char('h') => Some(DetailAction::PrevPage),
        KeyCode::Down | KeyCode::Char('j') => Some(DetailAction::MoveSelection(1)),
        KeyCode::Up | KeyCode::Char('k') => Some(DetailAction::MoveSelection(-1)),
        KeyCode::Char(']') => Some(DetailAction::NextLocationItem),
        KeyCode::Char('[') => Some(DetailAction::PrevLocationItem),
        KeyCode::Char('c') => {
            if ctx.current_page == DetailPage::Context {
                Some(DetailAction::CopyContext)
            } else {
                Some(DetailAction::CopyPage)
            }
        },
        KeyCode::Char('p') => {
            if ctx.current_page == DetailPage::Context {
                Some(DetailAction::CopyPrimary)
            } else {
                None
            }
        },
        KeyCode::Char('e') | KeyCode::Char('o') => Some(DetailAction::OpenInEditor),
        KeyCode::Char('?') => Some(DetailAction::ShowHelp),
        KeyCode::Char(c) => match page_from_digit(c) {
            Some(p) => Some(DetailAction::JumpToPage(p)),
            None => None,
        },
        _ => None,
    }
}


/// On every page: Esc goes back, Tab and BackTab change page, Up and Down
/// move the selection, `c` copies (the context ranges on the Context page,
/// the page elsewhere), and each digit from 1 to 8 jumps to the page of that
/// position in display order.
pub proof fn lemma_detail_keys_on_every_page(ctx: DetailActionContext, c: char)
    ensures
        detail_action_for(KeyCode::Esc, ctx) == Some(DetailAction::NavigateBack),
        detail_action_for(KeyCode::Tab, ctx) == Some(DetailAction::NextPage),
        detail_action_for(KeyCode::BackTab, ctx) == Some(DetailAction::PrevPage),
        detail_action_for(KeyCode::Up, ctx) == Some(DetailAction::MoveSelection(-1i32)),
        detail_action_for(KeyCode::Down, ctx) == Some(DetailAction::MoveSelection(1i32)),
        detail_action_for(KeyCode::Char('c'), ctx) == (if ctx.current_page == DetailPage::Context {
            Some(DetailAction::CopyContext)
        } else {
            Some(DetailAction::CopyPage)
        }),
        '1' <= c <= '8' ==> (detail_action_for(KeyCode::Char(c), ctx) matches Some(DetailAction::JumpToPage(p))
            && crate::detail_page::display_rank(p) == c as int - '1' as int),
{
}

} // verus!
