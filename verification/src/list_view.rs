//! Text of a row of the results list: a location group with its rank,
//! combined score, location, item count and aggregated metrics.
use vstd::prelude::*;
use crate::filter::SeverityFilter;
use crate::grouping::{LocationGroup, aggregate_metrics, group_max_cognitive, group_max_length, group_max_nesting, values};
use crate::page_text::{one_decimal, padded, push_one_decimal};
use crate::text::{decimal, div_round_even, push_char, push_decimal, push_str};
use crate::results_app::ResultsApp;

verus! {

/// `s` without trailing separators and trailing "." components (a "." is a
/// component when it is the whole text or follows a separator).
pub open spec fn trim_path_end(s: Seq<char>) -> Seq<char>
    decreases s.len(),
{
    if s.len() == 0 {
        s
    } else if s.last() == '/' {
        trim_path_end(s.drop_last())
    } else if s.last() == '.' && (s.len() == 1 || s[s.len() - 2] == '/') {
        trim_path_end(s.drop_last())
    } else {
        s
    }
}

/// The text after the last separator of `s`.
pub open spec fn after_last_separator(s: Seq<char>) -> Seq<char>
    decreases s.len(),
{
    if s.len() == 0 || s.last() == '/' {
        Seq::empty()
    } else {
        after_last_separator(s.drop_last()).push(s.last())
    }
}

/// The last component of a path, as `std::path::Path::file_name` gives it
/// on Unix, where `/` is the only separator: the last component that is
/// neither empty nor "." (trailing separators and "." components are
/// normalized away), and none where there is no such component or it is "..".
pub open spec fn path_file_name(path: Seq<char>) -> Option<Seq<char>> {
    let last = after_last_separator(trim_path_end(path));
    if last.len() == 0 || last == ".."@ {
        None
    } else {
        Some(last)
    }
}

/// The last component of a path.
///
/// Calls `std::path::Path::file_name` on the path and takes the component
/// as text (always possible for a path made from text); the contract states
/// the component as `path_file_name` describes it, which holds for Unix
/// paths (Windows separators and prefixes are not described).
#[verifier::external_body]
fn file_name_of(path: &str) -> (r: Option<String>)
    ensures
        match r {
            Some(n) => path_file_name(path@) == Some(n@),
            None => path_file_name(path@) is None,
        },
{
    std::path::Path::new(path).file_name().and_then(|n| n.to_str()).map(|n| n.to_string())
}

/// Texts of a list row.
pub struct GroupedItemText {
    /// "▸ " on the selected row, two spaces otherwise.
    pub indicator: &'static str,
    /// "#" and the 1-based rank, left-aligned in four columns.
    pub rank: String,
    /// The combined score with one decimal, left-aligned in seven columns.
    pub score: String,
    /// Severity band of the combined score (the row's color).
    pub severity: SeverityFilter,
    /// File name, followed by "::" and the function unless the item is
    /// file-scoped.
    pub location: String,
    /// " (N items)" for more than one item, empty otherwise.
    pub badge: String,
    /// Aggregated metrics in brackets, those without data left out.
    pub metrics: String,
}

/// Severity band of a combined score in hundredths.
pub open spec fn total_band(score: int) -> SeverityFilter {
    if score >= 10000 {
        SeverityFilter::Critical
    } else if score >= 5000 {
        SeverityFilter::High
    } else if score >= 1000 {
        SeverityFilter::Medium
    } else {
        SeverityFilter::Low
    }
}

/// Location text of a group.
pub open spec fn location_text(file: Seq<char>, function: Seq<char>) -> Seq<char> {
    let name = match path_file_name(file) {
        Some(n) => n,
        None => "unknown"@,
    };
    if function == "[file-scope]"@ {
        name
    } else {
        name + "::"@ + function
    }
}

/// A metric part, or nothing when the value is zero.
pub open spec fn metric_part(label: Seq<char>, value: nat) -> Seq<Seq<char>> {
    if value > 0 {
        seq![label + decimal(value)]
    } else {
        Seq::empty()
    }
}

/// Parts joined with single spaces.
pub open spec fn joined(parts: Seq<Seq<char>>) -> Seq<char>
    decreases parts.len(),
{
    if parts.len() == 0 {
        Seq::empty()
    } else if parts.len() == 1 {
        parts[0]
    } else {
        joined(parts.drop_last()) + " "@ + parts.last()
    }
}

/// The metric parts of a group: coverage in whole percent (rounded halves to even)
/// when known, then cognitive complexity, nesting and length when nonzero.
pub open spec fn metric_parts(coverage: Option<u32>, cognitive: nat, nesting: nat, length: nat) -> Seq<Seq<char>> {
    let cov = match coverage {
        Some(c) => seq!["Cov:"@ + decimal(div_round_even(c as nat, 100)) + "%"@],
        None => Seq::<Seq<char>>::empty(),
    };
    cov + metric_part("Cog:"@, cognitive) + metric_part("Nest:"@, nesting) + metric_part("LOC:"@, length)
}

/// Whether `t` is the row text of `group` at `index`.
pub open spec fn row_text(group: LocationGroup, index: int, is_selected: bool, t: GroupedItemText) -> bool {
    let s = values(group.items@);
    &&& t.indicator@ == (if is_selected { "▸ "@ } else { "  "@ })
    &&& t.rank@ == "#"@ + padded(decimal((index + 1) as nat), 4)
    &&& t.score@ == padded(one_decimal(group.combined_score as nat), 7)
    &&& t.severity == total_band(group.combined_score as int)
    &&& t.location@ == location_text(group.location.file@, group.location.function@)
    &&& t.badge@ == (if s.len() > 1 { " ("@ + decimal(s.len()) + " items)"@ } else { Seq::<char>::empty() })
    &&& t.metrics@ == "("@ + joined(
        metric_parts(
            s[0].coverage,
            group_max_cognitive(s) as nat,
            group_max_nesting(s) as nat,
            group_max_length(s) as nat,
        ),
    ) + ")"@
}

/// Appends spaces until `s` holds `start` plus `width` characters.
fn pad_to(s: &mut String, text_len: usize, width: usize)
    requires
        text_len <= old(s)@.len(),
    ensures
        final(s)@ == old(s)@ + (if text_len >= width { Seq::<char>::empty() } else { Seq::new((width - text_len) as nat, |i: int| ' ') }),
{
    let mut k = text_len;
    let ghost start = s@;
    while k < width
        invariant
            k >= text_len,
            text_len >= width ==> k == text_len,
            text_len < width ==> k <= width,
            s@ == start + Seq::new((k - text_len) as nat, |i: int| ' '),
        decreases width - k,
    {
        push_char(s, ' ');
        proof {
            assert(Seq::new((k - text_len) as nat, |i: int| ' ').push(' ') =~= Seq::new((k + 1 - text_len) as nat, |i: int| ' '));
        }
        k = k + 1;
    }
    assert(s@ =~= start + (if text_len >= width { Seq::<char>::empty() } else { Seq::new((width - text_len) as nat, |i: int| ' ') }));
}

/// Appends a space-separated part.
fn push_part(out: &mut String, parts: Ghost<Seq<Seq<char>>>, part: &str, first: bool)
    requires
        old(out)@ == joined(parts@),
        first == (parts@.len() == 0),
    ensures
        final(out)@ == joined(parts@.push(part@)),
{
    if !first {
        push_str(out, " ");
    }
    push_str(out, part);
    proof {
        let p2 = parts@.push(part@);
        assert(p2.drop_last() =~= parts@);
        if parts@.len() == 0 {
            assert(p2[0] == part@);
        }
    }
    assert(out@ =~= joined(parts@.push(part@)));
}

/// Row texts of a location group at list position `index`.
pub fn format_grouped_item(group: &LocationGroup, index: usize, is_selected: bool) -> (r: GroupedItemText)
    requires
        group.items.len() > 0,
        index < usize::MAX,
    ensures
        row_text(*group, index as int, is_selected, r),
{
    proof {
        reveal_strlit("  ");
    }
    let indicator = if is_selected {
        "▸ "
    } else {
        "  "
    };
    let mut rank = String::new();
    push_str(&mut rank, "#");
    let number = crate::text::to_decimal(index as u128 + 1);
    push_str(&mut rank, number.as_str());
    pad_to(&mut rank, number.as_str().unicode_len(), 4);
    assert(rank@ =~= "#"@ + padded(decimal((index + 1) as nat), 4));
    let mut score = String::new();
    let total = group.combined_score;
    push_one_decimal(&mut score, total as u128);
    let ghost score_text = score@;
    assert(score_text =~= one_decimal(group.combined_score as nat));
    let score_len = score.as_str().unicode_len();
    pad_to(&mut score, score_len, 7);
    let severity = if total >= 10000 {
        SeverityFilter::Critical
    } else if total >= 5000 {
        SeverityFilter::High
    } else if total >= 1000 {
        SeverityFilter::Medium
    } else {
        SeverityFilter::Low
    };
    let mut location = match file_name_of(group.location.file.as_str()) {
        Some(n) => n,
        None => {
            let mut u = String::new();
            push_str(&mut u, "unknown");
            u
        },
    };
    if !crate::text::str_equal(group.location.function.as_str(), "[file-scope]") {
        push_str(&mut location, "::");
        push_str(&mut location, group.location.function.as_str());
    }
    let mut badge = String::new();
    if group.items.len() > 1 {
        push_str(&mut badge, " (");
        push_decimal(&mut badge, group.items.len() as u128);
        push_str(&mut badge, " items)");
    }
    let metrics = aggregate_metrics(group);
    let ghost s = values(group.items@);
    let mut inner = String::new();
    let ghost mut parts: Seq<Seq<char>> = Seq::empty();
    let mut first = true;
    assert(inner@ =~= joined(parts));
    match metrics.coverage {
        Some(c) => {
            let mut part = String::new();
            push_str(&mut part, "Cov:");
            push_decimal(&mut part, crate::text::round_div_even(c as u128, 100));
            push_str(&mut part, "%");
            push_part(&mut inner, Ghost(parts), part.as_str(), first);
            proof {
                parts = parts.push(part@);
            }
            first = false;
        },
        None => {},
    }
    assert(s[0] == *group.items@[0]);
    let ghost cov_parts = parts;
    if metrics.cognitive_complexity > 0 {
        let mut part = String::new();
        push_str(&mut part, "Cog:");
        push_decimal(&mut part, metrics.cognitive_complexity as u128);
        push_part(&mut inner, Ghost(parts), part.as_str(), first);
        proof {
            parts = parts.push(part@);
        }
        first = false;
    }
    if metrics.nesting_depth > 0 {
        let mut part = String::new();
        push_str(&mut part, "Nest:");
        push_decimal(&mut part, metrics.nesting_depth as u128);
        push_part(&mut inner, Ghost(parts), part.as_str(), first);
        proof {
            parts = parts.push(part@);
        }
        first = false;
    }
    if metrics.function_length > 0 {
        let mut part = String::new();
        push_str(&mut part, "LOC:");
        push_decimal(&mut part, metrics.function_length as u128);
        push_part(&mut inner, Ghost(parts), part.as_str(), first);
        proof {
            parts = parts.push(part@);
        }
        first = false;
    }
    assert(parts =~= metric_parts(
        s[0].coverage,
        group_max_cognitive(s) as nat,
        group_max_nesting(s) as nat,
        group_max_length(s) as nat,
    ));
    let mut metrics_text = String::new();
    push_str(&mut metrics_text, "(");
    push_str(&mut metrics_text, inner.as_str());
    push_str(&mut metrics_text, ")");
    GroupedItemText { indicator, rank, score, severity, location, badge, metrics: metrics_text }
}

/// The text shown in place of an empty list: no findings at all when no
/// filter or search narrows the list, otherwise that none match.
pub fn empty_list_text(app: &ResultsApp) -> (r: &'static str)
    ensures
        r@ == if app.query_state().filter_list().len() == 0 && app.query_state().search_state().text().len() == 0 {
            "No debt items found"@
        } else {
            "No items match current filters/search"@
        },
{
    if app.query().filters().len() == 0 && app.query().search().is_empty() {
        "No debt items found"
    } else {
        "No items match current filters/search"
    }
}

} // verus!
