//! Detail page enum for the multi-page detail view.
use vstd::prelude::*;

verus! {

/// Detail page selection for the multi-page detail view.
#[derive(Debug, Clone, Copy, PartialEq, Eq, Structural)]
pub enum DetailPage {
    /// Overview page with summary metrics.
    Overview,
    /// Score breakdown page with detailed scoring analysis.
    ScoreBreakdown,
    /// Context page with the code ranges to read for the item. It stands
    /// outside the page sequence: it is reached by its number key, or by
    /// paging where the item has a context suggestion.
    Context,
    /// Dependencies page showing function relationships.
    Dependencies,
    /// Git context page with commit history.
    GitContext,
    /// Patterns page showing detected anti-patterns.
    Patterns,
    /// Data flow page with purity analysis.
    DataFlow,
    /// Responsibilities page showing detected responsibilities.
    Responsibilities,
}

/// Position of a page in the fixed page sequence; the Context page, outside
/// the sequence, comes after it.
pub open spec fn page_index(p: DetailPage) -> nat {
    match p {
        DetailPage::Overview => 0,
        DetailPage::ScoreBreakdown => 1,
        DetailPage::Context => 7,
        DetailPage::Dependencies => 2,
        DetailPage::GitContext => 3,
        DetailPage::Patterns => 4,
        DetailPage::DataFlow => 5,
        DetailPage::Responsibilities => 6,
    }
}

/// The page at a position of the page sequence, if there is one.
pub open spec fn page_at(i: int) -> Option<DetailPage> {
    if i == 0 {
        Some(DetailPage::Overview)
    } else if i == 1 {
        Some(DetailPage::ScoreBreakdown)
    } else if i == 2 {
        Some(DetailPage::Dependencies)
    } else if i == 3 {
        Some(DetailPage::GitContext)
    } else if i == 4 {
        Some(DetailPage::Patterns)
    } else if i == 5 {
        Some(DetailPage::DataFlow)
    } else if i == 6 {
        Some(DetailPage::Responsibilities)
    } else {
        None
    }
}

/// Total number of detail pages.
pub open spec fn page_count() -> nat {
    7
}

/// Order in which pages are listed: the Context page between Score
/// Breakdown and Dependencies.
pub open spec fn display_rank(p: DetailPage) -> nat {
    match p {
        DetailPage::Overview => 0,
        DetailPage::ScoreBreakdown => 1,
        DetailPage::Context => 2,
        DetailPage::Dependencies => 3,
        DetailPage::GitContext => 4,
        DetailPage::Patterns => 5,
        DetailPage::DataFlow => 6,
        DetailPage::Responsibilities => 7,
    }
}

/// The page after `p`, wrapping from the last page back to the first; after
/// the Context page comes Dependencies.
pub open spec fn spec_next(p: DetailPage) -> DetailPage {
    if p == DetailPage::Context {
        DetailPage::Dependencies
    } else {
        page_at(((page_index(p) + 1) % 7) as int).unwrap()
    }
}

/// The page before `p`, wrapping from the first page back to the last;
/// before the Context page comes Score Breakdown.
pub open spec fn spec_prev(p: DetailPage) -> DetailPage {
    if p == DetailPage::Context {
        DetailPage::ScoreBreakdown
    } else {
        page_at(((page_index(p) + 6) % 7) as int).unwrap()
    }
}

impl DetailPage {
    /// Total number of detail pages.
    pub const COUNT: usize = 7;

    /// Get next page with wrapping.
    pub fn next(self) -> (r: Self)
        ensures
            r == spec_next(self),
            self != DetailPage::Context ==> page_index(r) == (page_index(self) + 1) % 7,
    {
        match self {
            DetailPage::Overview => DetailPage::ScoreBreakdown,
            DetailPage::Context => DetailPage::Dependencies,
            DetailPage::ScoreBreakdown => DetailPage::Dependencies,
            DetailPage::Dependencies => DetailPage::GitContext,
            DetailPage::GitContext => DetailPage::Patterns,
            DetailPage::Patterns => DetailPage::DataFlow,
            DetailPage::DataFlow => DetailPage::Responsibilities,
            DetailPage::Responsibilities => DetailPage::Overview,
        }
    }

    /// Get previous page with wrapping.
    pub fn prev(self) -> (r: Self)
        ensures
            r == spec_prev(self),
            self != DetailPage::Context ==> page_index(r) == (page_index(self) + 6) % 7,
    {
        match self {
            DetailPage::Overview => DetailPage::Responsibilities,
            DetailPage::Context => DetailPage::ScoreBreakdown,
            DetailPage::ScoreBreakdown => DetailPage::Overview,
            DetailPage::Dependencies => DetailPage::ScoreBreakdown,
            DetailPage::GitContext => DetailPage::Dependencies,
            DetailPage::Patterns => DetailPage::GitContext,
            DetailPage::DataFlow => DetailPage::Patterns,
            DetailPage::Responsibilities => DetailPage::DataFlow,
        }
    }

    /// Create from a 0-based index; `None` for indices of 7 and above.
    pub fn from_index(idx: usize) -> (r: Option<Self>)
        ensures
            r == page_at(idx as int),
            r is Some <==> idx < 7,
    {
        match idx {
            0 => Some(DetailPage::Overview),
            1 => Some(DetailPage::ScoreBreakdown),
            2 => Some(DetailPage::Dependencies),
            3 => Some(DetailPage::GitContext),
            4 => Some(DetailPage::Patterns),
            5 => Some(DetailPage::DataFlow),
            6 => Some(DetailPage::Responsibilities),
            _ => None,
        }
    }

    /// Get 0-based index (7 for the Context page, outside the sequence).
    pub fn index(self) -> (r: usize)
        ensures
            r == page_index(self),
            r < 8,
    {
        match self {
            DetailPage::Overview => 0,
            DetailPage::ScoreBreakdown => 1,
            DetailPage::Context => 7,
            DetailPage::Dependencies => 2,
            DetailPage::GitContext => 3,
            DetailPage::Patterns => 4,
            DetailPage::DataFlow => 5,
            DetailPage::Responsibilities => 6,
        }
    }

    /// Get display name for page.
    pub fn name(self) -> (r: &'static str)
        ensures
            r@ == page_name(self),
    {
        proof {
            reveal_strlit("Overview");
            reveal_strlit("Score Breakdown");
            reveal_strlit("Context");
            reveal_strlit("Dependencies");
            reveal_strlit("Git Context");
            reveal_strlit("Patterns");
            reveal_strlit("Data Flow");
            reveal_strlit("Responsibilities");
        }
        match self {
            DetailPage::Overview => "Overview",
            DetailPage::ScoreBreakdown => "Score Breakdown",
            DetailPage::Context => "Context",
            DetailPage::Dependencies => "Dependencies",
            DetailPage::GitContext => "Git Context",
            DetailPage::Patterns => "Patterns",
            DetailPage::DataFlow => "Data Flow",
            DetailPage::Responsibilities => "Responsibilities",
        }
    }
}

/// Human-readable name of each page.
pub open spec fn page_name(p: DetailPage) -> Seq<char> {
    match p {
        DetailPage::Overview => "Overview"@,
        DetailPage::ScoreBreakdown => "Score Breakdown"@,
        DetailPage::Context => "Context"@,
        DetailPage::Dependencies => "Dependencies"@,
        DetailPage::GitContext => "Git Context"@,
        DetailPage::Patterns => "Patterns"@,
        DetailPage::DataFlow => "Data Flow"@,
        DetailPage::Responsibilities => "Responsibilities"@,
    }
}

/// `next` and `prev` undo each other on every page of the sequence.
pub proof fn lemma_next_prev_inverse(p: DetailPage)
    requires
        p != DetailPage::Context,
    ensures
        spec_prev(spec_next(p)) == p,
        spec_next(spec_prev(p)) == p,
{
}

/// `from_index` recovers every page of the sequence from its index, and
/// `index` recovers every valid index from its page.
pub proof fn lemma_index_roundtrip(p: DetailPage, i: int)
    ensures
        p != DetailPage::Context ==> page_at(page_index(p) as int) == Some(p),
        page_at(page_index(DetailPage::Context) as int) is None,
        0 <= i < 7 ==> page_index(page_at(i).unwrap()) == i,
{
}

/// Advancing seven times returns to the starting page of the sequence.
pub proof fn lemma_next_cycle(p: DetailPage)
    requires
        p != DetailPage::Context,
    ensures
        spec_next(spec_next(spec_next(spec_next(spec_next(spec_next(spec_next(p))))))) == p,
{
}

} // verus!
