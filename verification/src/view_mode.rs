//! View modes of the results browser.
use vstd::prelude::*;

verus! {

/// View mode for the results browser.
#[derive(Debug, Clone, Copy, PartialEq, Eq, Structural)]
pub enum ViewMode {
    /// Main list view showing all debt items.
    List,
    /// Detail view for the currently selected item.
    Detail,
    /// Search input mode for filtering items.
    Search,
    /// Sort menu for changing sort criteria.
    SortMenu,
    /// Filter menu for applying filters.
    FilterMenu,
    /// Help overlay showing keyboard shortcuts.
    Help,
    /// Dependency structure matrix view.
    Dsm,
}

} // verus!
