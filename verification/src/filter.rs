//! Filters over debt items: by severity band, coverage band, or complexity.
use vstd::prelude::*;
use crate::item::UnifiedDebtItem;
use crate::text::{push_decimal, push_str, decimal};

verus! {

/// Severity band.
#[derive(Debug, Clone, Copy, PartialEq, Eq, Structural)]
pub enum SeverityFilter {
    Critical,
    High,
    Medium,
    Low,
}

/// Coverage band.
#[derive(Debug, Clone, Copy, PartialEq, Eq, Structural)]
pub enum CoverageFilter {
    /// No coverage data.
    NoCoverage,
    /// Low coverage (0-30%).
    Low,
    /// Medium coverage (30-70%).
    Medium,
    /// High coverage (70-100%).
    High,
}

/// Filter for debt items.
#[derive(Debug, Clone, Copy, PartialEq, Eq, Structural)]
pub enum Filter {
    /// Filter by severity level.
    Severity(SeverityFilter),
    /// Filter by coverage.
    Coverage(CoverageFilter),
    /// Filter by complexity threshold.
    Complexity(u32),
}

/// The severity band of a score given in hundredths: critical from 100,
/// high from 50, medium from 10, low below.
pub open spec fn severity_band(score: u64) -> SeverityFilter {
    if score >= 10000 {
        SeverityFilter::Critical
    } else if score >= 5000 {
        SeverityFilter::High
    } else if score >= 1000 {
        SeverityFilter::Medium
    } else {
        SeverityFilter::Low
    }
}

/// Lowercase name of a severity band.
pub open spec fn severity_name(s: SeverityFilter) -> Seq<char> {
    match s {
        SeverityFilter::Critical => "critical"@,
        SeverityFilter::High => "high"@,
        SeverityFilter::Medium => "medium"@,
        SeverityFilter::Low => "low"@,
    }
}

/// Whether an item with the given coverage (hundredths of a percent) falls
/// in a coverage band.
pub open spec fn coverage_in_band(band: CoverageFilter, coverage: Option<u32>) -> bool {
    match (band, coverage) {
        (CoverageFilter::NoCoverage, None) => true,
        (CoverageFilter::Low, Some(c)) => c < 3000,
        (CoverageFilter::Medium, Some(c)) => 3000 <= c < 7000,
        (CoverageFilter::High, Some(c)) => c >= 7000,
        _ => false,
    }
}

/// Whether an item passes a filter.
pub open spec fn filter_matches(f: Filter, item: UnifiedDebtItem) -> bool {
    match f {
        Filter::Severity(s) => severity_band(item.final_score) == s,
        Filter::Coverage(c) => coverage_in_band(c, item.coverage),
        Filter::Complexity(t) => item.cyclomatic_complexity >= t,
    }
}

/// Whether an item passes every filter of a list.
pub open spec fn all_filters_match(filters: Seq<Filter>, item: UnifiedDebtItem) -> bool {
    forall|k: int| 0 <= k < filters.len() ==> filter_matches(#[trigger] filters[k], item)
}

/// Display name of a severity band.
pub open spec fn severity_display(s: SeverityFilter) -> Seq<char> {
    match s {
        SeverityFilter::Critical => "Critical"@,
        SeverityFilter::High => "High"@,
        SeverityFilter::Medium => "Medium"@,
        SeverityFilter::Low => "Low"@,
    }
}

/// Display name of a coverage band.
pub open spec fn coverage_display(c: CoverageFilter) -> Seq<char> {
    match c {
        CoverageFilter::NoCoverage => "No Coverage"@,
        CoverageFilter::Low => "Low (0-30%)"@,
        CoverageFilter::Medium => "Medium (30-70%)"@,
        CoverageFilter::High => "High (70-100%)"@,
    }
}

/// Display name of a filter.
pub open spec fn filter_display(f: Filter) -> Seq<char> {
    match f {
        Filter::Severity(s) => "Severity: "@ + severity_display(s),
        Filter::Coverage(c) => "Coverage: "@ + coverage_display(c),
        Filter::Complexity(t) => "Complexity >= "@ + decimal(t as nat),
    }
}

impl Filter {
    /// Check if an item matches this filter.
    pub fn matches(&self, item: &UnifiedDebtItem) -> (r: bool)
        ensures
            r == filter_matches(*self, *item),
    {
        match self {
            Filter::Severity(sev) => sev.matches(item),
            Filter::Coverage(cov) => cov.matches(item),
            Filter::Complexity(threshold) => item.cyclomatic_complexity >= *threshold,
        }
    }

    /// Get display name for filter.
    pub fn display_name(&self) -> (r: String)
        ensures
            r@ == filter_display(*self),
    {
        let mut s = String::new();
        match self {
            Filter::Severity(sev) => {
                proof {
                    reveal_strlit("Severity: ");
                }
                push_str(&mut s, "Severity: ");
                push_str(&mut s, sev.display_name());
            },
            Filter::Coverage(cov) => {
                proof {
                    reveal_strlit("Coverage: ");
                }
                push_str(&mut s, "Coverage: ");
                push_str(&mut s, cov.display_name());
            },
            Filter::Complexity(threshold) => {
                proof {
                    reveal_strlit("Complexity >= ");
                }
                push_str(&mut s, "Complexity >= ");
                push_decimal(&mut s, *threshold as u128);
            },
        }
        assert(s@ =~= filter_display(*self));
        s
    }
}

impl SeverityFilter {
    /// Check if item matches severity filter.
    pub fn matches(&self, item: &UnifiedDebtItem) -> (r: bool)
        ensures
            r == (severity_band(item.final_score) == *self),
    {
        severity_of(item.final_score) == *self
    }

    /// Get display name.
    pub fn display_name(&self) -> (r: &'static str)
        ensures
            r@ == severity_display(*self),
    {
        proof {
            reveal_strlit("Critical");
            reveal_strlit("High");
            reveal_strlit("Medium");
            reveal_strlit("Low");
        }
        match self {
            SeverityFilter::Critical => "Critical",
            SeverityFilter::High => "High",
            SeverityFilter::Medium => "Medium",
            SeverityFilter::Low => "Low",
        }
    }

    /// Get all severity filters.
    pub fn all() -> (r: Vec<SeverityFilter>)
        ensures
            r@ == seq![
                SeverityFilter::Critical,
                SeverityFilter::High,
                SeverityFilter::Medium,
                SeverityFilter::Low,
            ],
    {
        let mut v = Vec::new();
        v.push(SeverityFilter::Critical);
        v.push(SeverityFilter::High);
        v.push(SeverityFilter::Medium);
        v.push(SeverityFilter::Low);
        assert(v@ =~= seq![
            SeverityFilter::Critical,
            SeverityFilter::High,
            SeverityFilter::Medium,
            SeverityFilter::Low,
        ]);
        v
    }
}

impl CoverageFilter {
    /// Check if item matches coverage filter.
    pub fn matches(&self, item: &UnifiedDebtItem) -> (r: bool)
        ensures
            r == coverage_in_band(*self, item.coverage),
    {
        match (self, item.coverage) {
            (CoverageFilter::NoCoverage, None) => true,
            (CoverageFilter::NoCoverage, Some(_)) => false,
            (CoverageFilter::Low, Some(cov)) => cov < 3000,
            (CoverageFilter::Medium, Some(cov)) => 3000 <= cov && cov < 7000,
            (CoverageFilter::High, Some(cov)) => cov >= 7000,
            _ => false,
        }
    }

    /// Get display name.
    pub fn display_name(&self) -> (r: &'static str)
        ensures
            r@ == coverage_display(*self),
    {
        proof {
            reveal_strlit("No Coverage");
            reveal_strlit("Low (0-30%)");
            reveal_strlit("Medium (30-70%)");
            reveal_strlit("High (70-100%)");
        }
        match self {
            CoverageFilter::NoCoverage => "No Coverage",
            CoverageFilter::Low => "Low (0-30%)",
            CoverageFilter::Medium => "Medium (30-70%)",
            CoverageFilter::High => "High (70-100%)",
        }
    }

    /// Get all coverage filters.
    pub fn all() -> (r: Vec<CoverageFilter>)
        ensures
            r@ == seq![
                CoverageFilter::NoCoverage,
                CoverageFilter::Low,
                CoverageFilter::Medium,
                CoverageFilter::High,
            ],
    {
        let mut v = Vec::new();
        v.push(CoverageFilter::NoCoverage);
        v.push(CoverageFilter::Low);
        v.push(CoverageFilter::Medium);
        v.push(CoverageFilter::High);
        assert(v@ =~= seq![
            CoverageFilter::NoCoverage,
            CoverageFilter::Low,
            CoverageFilter::Medium,
            CoverageFilter::High,
        ]);
        v
    }
}

/// The severity band of a score in hundredths.
pub fn severity_of(score: u64) -> (r: SeverityFilter)
    ensures
        r == severity_band(score),
{
    if score >= 10000 {
        SeverityFilter::Critical
    } else if score >= 5000 {
        SeverityFilter::High
    } else if score >= 1000 {
        SeverityFilter::Medium
    } else {
        SeverityFilter::Low
    }
}

/// Calculate severity level name from a score in hundredths.
pub fn calculate_severity(score: u64) -> (r: &'static str)
    ensures
        r@ == severity_name(severity_band(score)),
{
    proof {
        reveal_strlit("critical");
        reveal_strlit("high");
        reveal_strlit("medium");
        reveal_strlit("low");
    }
    if score >= 10000 {
        "critical"
    } else if score >= 5000 {
        "high"
    } else if score >= 1000 {
        "medium"
    } else {
        "low"
    }
}

/// Whether an item passes every filter of a list.
pub fn matches_all(filters: &Vec<Filter>, item: &UnifiedDebtItem) -> (r: bool)
    ensures
        r == all_filters_match(filters@, *item),
{
    let mut k: usize = 0;
    while k < filters.len()
        invariant
            k <= filters.len(),
            forall|j: int| 0 <= j < k ==> filter_matches(#[trigger] filters@[j], *item),
        decreases filters.len() - k,
    {
        if !filters[k].matches(item) {
            return false;
        }
        k = k + 1;
    }
    true
}

/// What each filter keeps, in terms of the item: a complexity filter keeps
/// items whose cyclomatic complexity reaches the threshold (whatever their
/// cognitive complexity); coverage bands split at 30% and 70%, with items
/// without coverage data in a band of their own; severity bands split the
/// score (hundredths) at 10, 50 and 100.
pub proof fn lemma_filter_meaning(f: Filter, item: UnifiedDebtItem)
    ensures
        f matches Filter::Complexity(t) ==> (filter_matches(f, item) <==> item.cyclomatic_complexity >= t),
        f == Filter::Coverage(CoverageFilter::NoCoverage) ==> (filter_matches(f, item) <==> item.coverage is None),
        f == Filter::Coverage(CoverageFilter::Low) ==> (filter_matches(f, item) <==> (item.coverage matches Some(c)
            && c < 3000)),
        f == Filter::Coverage(CoverageFilter::Medium) ==> (filter_matches(f, item) <==> (item.coverage matches Some(c)
            && 3000 <= c && c < 7000)),
        f == Filter::Coverage(CoverageFilter::High) ==> (filter_matches(f, item) <==> (item.coverage matches Some(c)
            && c >= 7000)),
        f == Filter::Severity(SeverityFilter::Critical) ==> (filter_matches(f, item) <==> item.final_score >= 10000),
        f == Filter::Severity(SeverityFilter::High) ==> (filter_matches(f, item) <==> 5000 <= item.final_score
            && item.final_score < 10000),
        f == Filter::Severity(SeverityFilter::Medium) ==> (filter_matches(f, item) <==> 1000 <= item.final_score
            && item.final_score < 5000),
        f == Filter::Severity(SeverityFilter::Low) ==> (filter_matches(f, item) <==> item.final_score < 1000),
{
}

/// Raising a complexity threshold only drops items: an item kept at a
/// threshold is kept at every lower one.
pub proof fn lemma_complexity_filter_monotone(low: u32, high: u32, item: UnifiedDebtItem)
    requires
        low <= high,
        filter_matches(Filter::Complexity(high), item),
    ensures
        filter_matches(Filter::Complexity(low), item),
        item.cyclomatic_complexity >= high,
{
}

} // verus!
