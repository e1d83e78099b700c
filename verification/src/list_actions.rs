//! Which action a key triggers in the list view.
use vstd::prelude::*;
use crate::keys::{KeyCode, KeyEvent};

verus! {

/// Actions that can be triggered from list view.
#[derive(Debug, Clone, Copy, PartialEq, Eq, Structural)]
pub enum ListAction {
    /// Quit the application.
    Quit,
    /// Move selection up by one item.
    MoveUp,
    /// Move selection down by one item.
    MoveDown,
    /// Jump to first item.
    JumpToTop,
    /// Jump to last item.
    JumpToBottom,
    /// Move selection up by a page.
    PageUp,
    /// Move selection down by a page.
    PageDown,
    /// Toggle file grouping.
    ToggleGrouping,
    /// Enter detail view for selected item.
    EnterDetail,
    /// Enter search mode.
    EnterSearch,
    /// Open sort menu.
    OpenSortMenu,
    /// Open filter menu.
    OpenFilterMenu,
    /// Show help overlay.
    ShowHelp,
    /// Copy file path to clipboard.
    CopyPath,
    /// Open selected file in editor.
    OpenInEditor,
}

/// Context needed to determine if an action is valid.
#[derive(Debug, Clone, Copy, PartialEq, Eq, Structural)]
pub struct ListActionContext {
    /// Whether there are any items in the list.
    pub has_items: bool,
    /// Whether an item is currently selected.
    pub has_selection: bool,
}

impl ListActionContext {
    /// Create context for an empty list.
    pub fn empty() -> (r: Self)
        ensures
            !r.has_items,
            !r.has_selection,
    {
        ListActionContext { has_items: false, has_selection: false }
    }

    /// Create context for a list with selection.
    pub fn with_selection() -> (r: Self)
        ensures
            r.has_items,
            r.has_selection,
    {
        ListActionContext { has_items: true, has_selection: true }
    }
}

/// The action a key triggers in list view, if any.
pub open spec fn list_action_for(code: KeyCode, ctx: ListActionContext) -> Option<ListAction> {
    match code {
        KeyCode::Char('q') => Some(ListAction::Quit),
        KeyCode::Up | KeyCode::Char('k') => Some(ListAction::MoveUp),
        KeyCode::Down | KeyCode::Char('j') => Some(ListAction::MoveDown),
        KeyCode::Char('g') | KeyCode::Home => Some(ListAction::JumpToTop),
        KeyCode::End => Some(ListAction::JumpToBottom),
        KeyCode::PageUp => Some(ListAction::PageUp),
        KeyCode::PageDown => Some(ListAction::PageDown),
        KeyCode::Char('G') => Some(ListAction::ToggleGrouping),
        KeyCode::Enter => if ctx.has_items && ctx.has_selection { Some(ListAction::EnterDetail) } else { None },
        KeyCode::Char('/') => Some(ListAction::EnterSearch),
        KeyCode::Char('s') => Some(ListAction::OpenSortMenu),
        KeyCode::Char('f') => Some(ListAction::OpenFilterMenu),
        KeyCode::Char('?') => Some(ListAction::ShowHelp),
        KeyCode::Char('c') => if ctx.has_selection { Some(ListAction::CopyPath) } else { None },
        KeyCode::Char('e') | KeyCode::Char('o') => if ctx.has_selection { Some(ListAction::OpenInEditor) } else { None },
        _ => None,
    }
}

/// Determine which action a key triggers in list view.
pub fn determine_list_action(key: KeyEvent, ctx: ListActionContext) -> (r: Option<ListAction>)
    ensures
        r == list_action_for(key.code, ctx),
{
    match key.code {
        KeyCode::Char('q') => Some(ListAction::Quit),
        KeyCode::Up | KeyCode::Char('k') => Some(ListAction::MoveUp),
        KeyCode::Down | KeyCode::Char('j') => Some(ListAction::MoveDown),
        KeyCode::Char('g') | KeyCode::Home => Some(ListAction::JumpToTop),
        KeyCode::End => Some(ListAction::JumpToBottom),
        KeyCode::PageUp => Some(ListAction::PageUp),
        KeyCode::PageDown => Some(ListAction::PageDown),
        KeyCode::Char('G') => Some(ListAction::ToggleGrouping),
        KeyCode::Enter => {
            if ctx.has_items && ctx.has_selection {
                Some(ListAction::EnterDetail)
            } else {
                None
            }
        },
        KeyCode::Char('/') => Some(ListAction::EnterSearch),
        KeyCode::Char('s') => Some(ListAction::OpenSortMenu),
        KeyCode::Char('f') => Some(ListAction::OpenFilterMenu),
        KeyCode::Char('?') => Some(ListAction::ShowHelp),
        KeyCode::Char('c') => {
            if ctx.has_selection {
                Some(ListAction::CopyPath)
            } else {
                None
            }
        },
        KeyCode::Char('e') | KeyCode::Char('o') => {
            if ctx.has_selection {
                Some(ListAction::OpenInEditor)
            } else {
                None
            }
        },
        _ => None,
    }
}


/// Quit and the movement keys are available in every context, and Enter
/// opens the detail view exactly when there are items and a selection.
pub proof fn lemma_list_keys_in_any_context(ctx: ListActionContext)
    ensures
        list_action_for(KeyCode::Char('q'), ctx) == Some(ListAction::Quit),
        list_action_for(KeyCode::Up, ctx) == Some(ListAction::MoveUp),
        list_action_for(KeyCode::Down, ctx) == Some(ListAction::MoveDown),
        list_action_for(KeyCode::Enter, ctx) == (if ctx.has_items && ctx.has_selection {
            Some(ListAction::EnterDetail)
        } else {
            None
        }),
{
}

} // verus!
