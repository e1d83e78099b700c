//! Layout mode of the progress screen, chosen by terminal width.
use vstd::prelude::*;

verus! {

/// Layout mode based on terminal width.
#[derive(Debug, Clone, Copy, PartialEq, Eq, Structural)]
pub enum LayoutMode {
    /// Full detail view (more than 120 columns).
    Full,
    /// Standard view (80-120 columns).
    Standard,
    /// Compact view without sub-tasks (40-79 columns).
    Compact,
    /// Minimal view with just a progress bar (under 40 columns).
    Minimal,
}

/// Layout mode for a terminal width.
pub open spec fn mode_for_width(width: u16) -> LayoutMode {
    if width < 40 {
        LayoutMode::Minimal
    } else if width < 80 {
        LayoutMode::Compact
    } else if width <= 120 {
        LayoutMode::Standard
    } else {
        LayoutMode::Full
    }
}

impl LayoutMode {
    /// Determine layout mode from terminal width.
    pub fn from_terminal_width(width: u16) -> (r: Self)
        ensures
            r == mode_for_width(width),
    {
        if width <= 39 {
            LayoutMode::Minimal
        } else if width <= 79 {
            LayoutMode::Compact
        } else if width <= 120 {
            LayoutMode::Standard
        } else {
            LayoutMode::Full
        }
    }

    /// Whether this mode shows sub-tasks (Full and Standard).
    pub fn shows_subtasks(&self) -> (r: bool)
        ensures
            r == (*self == LayoutMode::Full || *self == LayoutMode::Standard),
    {
        match self {
            LayoutMode::Full | LayoutMode::Standard => true,
            _ => false,
        }
    }

    /// Whether this mode shows full metrics (Full only).
    pub fn shows_full_metrics(&self) -> (r: bool)
        ensures
            r == (*self == LayoutMode::Full),
    {
        match self {
            LayoutMode::Full => true,
            _ => false,
        }
    }
}

/// Wider terminals never show less: a mode that shows sub-tasks at some width
/// shows them at every larger width, and likewise for full metrics.
pub proof fn lemma_wider_shows_more(narrow: u16, wide: u16)
    requires
        narrow <= wide,
    ensures
        (mode_for_width(narrow) == LayoutMode::Full || mode_for_width(narrow) == LayoutMode::Standard) ==> (
        mode_for_width(wide) == LayoutMode::Full || mode_for_width(wide) == LayoutMode::Standard),
        mode_for_width(narrow) == LayoutMode::Full ==> mode_for_width(wide) == LayoutMode::Full,
{
}

} // verus!
