//! Plain text of the detail pages, laid out as on screen: lowercase section
//! headers, and label-value pairs with labels padded to a fixed column.
use vstd::prelude::*;
use crate::grouping::{group_score, score_sum, values};
use crate::item::{DebtType, DetectionType, UnifiedDebtItem};
use crate::overview::{cognitive_display, debt_type_name, format_cognitive_display, format_debt_type_name, get_items_at_location, items_at};
use crate::results_app::ResultsApp;
use crate::text::{decimal, digit, digit_char, push_char, push_decimal, push_str, div_round_even, round_div_even};

verus! {

/// Width of the label column, indent included.
pub const LABEL_WIDTH: usize = 24;

/// `n` spaces.
pub open spec fn spaces(n: nat) -> Seq<char> {
    Seq::new(n, |i: int| ' ')
}

/// `s` padded with spaces to `width` characters (unchanged when longer).
pub open spec fn padded(s: Seq<char>, width: nat) -> Seq<char> {
    if s.len() >= width {
        s
    } else {
        s + spaces((width - s.len()) as nat)
    }
}

/// A section header line.
pub open spec fn header_text(title: Seq<char>) -> Seq<char> {
    title + "\n"@
}

/// A label-value line: the indented label padded to the label column, a gap
/// of four spaces, then the value.
pub open spec fn label_value_text(label: Seq<char>, value: Seq<char>) -> Seq<char> {
    padded("  "@ + label, 24) + "    "@ + value + "\n"@
}

/// A value in hundredths shown with one decimal, rounding halves to even.
pub open spec fn one_decimal(h: nat) -> Seq<char> {
    let t = div_round_even(h, 10);
    decimal(t / 10) + "."@ + seq![digit_char(t % 10)]
}

/// Severity name of a score in hundredths.
pub open spec fn score_severity(s: int) -> Seq<char> {
    if s >= 10000 {
        "critical"@
    } else if s >= 5000 {
        "high"@
    } else if s >= 1000 {
        "medium"@
    } else {
        "low"@
    }
}

/// Appends a section header.
pub fn add_section_header(output: &mut String, title: &str)
    ensures
        final(output)@ == old(output)@ + header_text(title@),
{
    push_str(output, title);
    push_str(output, "\n");
}

/// Appends a label-value pair with aligned columns.
pub fn add_label_value(output: &mut String, label: &str, value: &str)
    ensures
        final(output)@ == old(output)@ + label_value_text(label@, value@),
{
    proof {
        reveal_strlit("  ");
        reveal_strlit("    ");
    }
    let ghost start = output@;
    push_str(output, "  ");
    push_str(output, label);
    let ghost lab = "  "@ + label@;
    let n = label.unicode_len();
    let mut width: usize = if n >= 22 {
        LABEL_WIDTH
    } else {
        n + 2
    };
    assert(output@ =~= start + lab + spaces(0));
    while width < LABEL_WIDTH
        invariant
            lab == "  "@ + label@,
            lab.len() == n + 2,
            width <= LABEL_WIDTH,
            n >= 22 ==> width == LABEL_WIDTH,
            n < 22 ==> n + 2 <= width,
            output@ == start + lab + spaces((if n >= 22 { 0 } else { width - lab.len() }) as nat),
        decreases LABEL_WIDTH - width,
    {
        push_char(output, ' ');
        proof {
            assert(spaces((width - lab.len()) as nat).push(' ') =~= spaces((width + 1 - lab.len()) as nat));
        }
        width = width + 1;
    }
    assert(output@ =~= start + padded(lab, 24));
    push_str(output, "    ");
    push_str(output, value);
    push_str(output, "\n");
    assert(output@ =~= start + label_value_text(label@, value@));
}

/// Appends a blank line.
pub fn add_blank_line(output: &mut String)
    ensures
        final(output)@ == old(output)@ + "\n"@,
{
    push_str(output, "\n");
}

/// Appends a value in hundredths with one decimal.
pub(crate) fn push_one_decimal(out: &mut String, h: u128)
    ensures
        final(out)@ == old(out)@ + one_decimal(h as nat),
{
    let t = round_div_even(h, 10);
    push_decimal(out, t / 10);
    push_str(out, ".");
    push_char(out, digit((t % 10) as usize));
    assert(out@ =~= old(out)@ + one_decimal(h as nat));
}


/// The location section of the overview page.
pub open spec fn location_text(item: UnifiedDebtItem) -> Seq<char> {
    header_text("location"@) + label_value_text("file"@, item.location.file@) + label_value_text(
        "function"@,
        item.location.function@,
    ) + label_value_text("line"@, decimal(item.location.line as nat)) + "\n"@
}

/// A score with its severity: "12.5  [medium]".
pub open spec fn score_value(score: int) -> Seq<char> {
    one_decimal(score as nat) + "  ["@ + score_severity(score) + "]"@
}

/// The score section: the combined score of all items at the location when
/// there are several, the item's own score otherwise.
pub open spec fn score_text(at: Seq<UnifiedDebtItem>, item: UnifiedDebtItem) -> Seq<char> {
    header_text("score"@) + (if at.len() > 1 {
        label_value_text("combined"@, score_value(group_score(at)))
    } else {
        label_value_text("total"@, score_value(item.final_score as int))
    }) + "\n"@
}

/// Header of the god object section, by detection type.
pub open spec fn god_header(item: UnifiedDebtItem) -> Seq<char> {
    match item.god_object_indicators {
        Some(g) => match g.detection_type {
            DetectionType::GodClass => "god object structure"@,
            DetectionType::GodFile => "god file structure"@,
            DetectionType::GodModule => "god module structure"@,
        },
        None => "god object structure"@,
    }
}

/// Label of the method count: methods of a class, functions otherwise.
pub open spec fn method_label(item: UnifiedDebtItem) -> Seq<char> {
    match item.god_object_indicators {
        Some(g) => if g.detection_type == DetectionType::GodClass {
            "methods"@
        } else {
            "functions"@
        },
        None => "functions"@,
    }
}

/// The god object section (empty for other debt types).
pub open spec fn god_object_text(item: UnifiedDebtItem) -> Seq<char> {
    match item.debt_type {
        DebtType::GodObject { methods, fields, responsibilities, lines, .. } => header_text(god_header(item))
            + label_value_text(method_label(item), decimal(methods as nat)) + match fields {
            Some(f) => label_value_text("fields"@, decimal(f as nat)),
            None => Seq::<char>::empty(),
        } + label_value_text("responsibilities"@, decimal(responsibilities as nat)) + label_value_text(
            "loc"@,
            decimal(lines as nat),
        ) + "\n"@,
        _ => Seq::empty(),
    }
}

/// Whether the item is a god object.
pub open spec fn is_god(item: UnifiedDebtItem) -> bool {
    item.debt_type is GodObject
}

/// The complexity section; a god object's figures are accumulated and it
/// shows no function length.
pub open spec fn complexity_text(item: UnifiedDebtItem) -> Seq<char> {
    let g = is_god(item);
    header_text("complexity"@) + label_value_text(
        if g { "accumulated cyclomatic"@ } else { "cyclomatic"@ },
        decimal(item.cyclomatic_complexity as nat),
    ) + label_value_text(if g { "accumulated cognitive"@ } else { "cognitive"@ }, cognitive_display(item, g))
        + label_value_text(if g { "max nesting"@ } else { "nesting"@ }, decimal(item.nesting_depth as nat)) + (if g {
        Seq::<char>::empty()
    } else {
        label_value_text("loc"@, decimal(item.function_length as nat))
    }) + "\n"@
}

/// The coverage section.
pub open spec fn coverage_text(item: UnifiedDebtItem) -> Seq<char> {
    header_text("coverage"@) + label_value_text(
        "coverage"@,
        match item.coverage {
            Some(c) => one_decimal(c as nat) + "%"@,
            None => "No data"@,
        },
    ) + "\n"@
}

/// The recommendation section.
pub open spec fn recommendation_text(item: UnifiedDebtItem) -> Seq<char> {
    header_text("recommendation"@) + label_value_text("action"@, item.primary_action@) + "\n"@ + label_value_text(
        "rationale"@,
        item.rationale@,
    ) + "\n"@
}

/// One indented debt type name per item.
pub open spec fn debt_names_text(s: Seq<UnifiedDebtItem>) -> Seq<char>
    decreases s.len(),
{
    if s.len() == 0 {
        Seq::empty()
    } else {
        debt_names_text(s.drop_last()) + "  "@ + debt_type_name(s.last().debt_type) + "\n"@
    }
}

/// The debt types section: every debt type at the location when there are
/// several, the item's own otherwise.
pub open spec fn debt_types_text(at: Seq<UnifiedDebtItem>, item: UnifiedDebtItem) -> Seq<char> {
    if at.len() > 1 {
        header_text("debt types"@) + debt_names_text(at)
    } else {
        header_text("debt type"@) + "  "@ + debt_type_name(item.debt_type) + "\n"@
    }
}

/// The overview page of `item`, given the items at its location.
pub open spec fn overview_text(item: UnifiedDebtItem, at: Seq<UnifiedDebtItem>) -> Seq<char> {
    location_text(item) + score_text(at, item) + god_object_text(item) + complexity_text(item) + coverage_text(item)
        + recommendation_text(item) + debt_types_text(at, item)
}

fn add_location_section(out: &mut String, item: &UnifiedDebtItem)
    ensures
        final(out)@ == old(out)@ + location_text(*item),
{
    add_section_header(out, "location");
    add_label_value(out, "file", item.location.file.as_str());
    add_label_value(out, "function", item.location.function.as_str());
    let line = crate::text::to_decimal(item.location.line as u128);
    add_label_value(out, "line", line.as_str());
    add_blank_line(out);
    assert(out@ =~= old(out)@ + location_text(*item));
}

/// The text of a score with its severity.
fn score_value_string(score: u128) -> (r: String)
    ensures
        r@ == score_value(score as int),
{
    let mut r = String::new();
    push_one_decimal(&mut r, score);
    push_str(&mut r, "  [");
    let sev = if score >= 10000 {
        "critical"
    } else if score >= 5000 {
        "high"
    } else if score >= 1000 {
        "medium"
    } else {
        "low"
    };
    push_str(&mut r, sev);
    push_str(&mut r, "]");
    assert(r@ =~= score_value(score as int));
    r
}

fn add_score_section(out: &mut String, at: &Vec<&UnifiedDebtItem>, item: &UnifiedDebtItem)
    ensures
        final(out)@ == old(out)@ + score_text(values(at@), *item),
{
    add_section_header(out, "score");
    if at.len() > 1 {
        let combined = score_sum(at);
        proof {
            crate::grouping::lemma_score_sum_bound(values(at@));
        }
        let v = score_value_string(combined);
        add_label_value(out, "combined", v.as_str());
    } else {
        let v = score_value_string(item.final_score as u128);
        add_label_value(out, "total", v.as_str());
    }
    add_blank_line(out);
    assert(out@ =~= old(out)@ + score_text(values(at@), *item));
}

fn add_god_object_section(out: &mut String, item: &UnifiedDebtItem)
    ensures
        final(out)@ == old(out)@ + god_object_text(*item),
{
    match item.debt_type {
        DebtType::GodObject { methods, fields, responsibilities, lines, .. } => {
            let (header, label) = match &item.god_object_indicators {
                Some(g) => match g.detection_type {
                    DetectionType::GodClass => ("god object structure", "methods"),
                    DetectionType::GodFile => ("god file structure", "functions"),
                    DetectionType::GodModule => ("god module structure", "functions"),
                },
                None => ("god object structure", "functions"),
            };
            add_section_header(out, header);
            let m = crate::text::to_decimal(methods as u128);
            add_label_value(out, label, m.as_str());
            match fields {
                Some(f) => {
                    let fs = crate::text::to_decimal(f as u128);
                    add_label_value(out, "fields", fs.as_str());
                },
                None => {},
            }
            let rs = crate::text::to_decimal(responsibilities as u128);
            add_label_value(out, "responsibilities", rs.as_str());
            let ls = crate::text::to_decimal(lines as u128);
            add_label_value(out, "loc", ls.as_str());
            add_blank_line(out);
        },
        _ => {},
    }
    assert(out@ =~= old(out)@ + god_object_text(*item));
}

fn add_complexity_section(out: &mut String, item: &UnifiedDebtItem)
    ensures
        final(out)@ == old(out)@ + complexity_text(*item),
{
    let g = match item.debt_type {
        DebtType::GodObject { .. } => true,
        _ => false,
    };
    add_section_header(out, "complexity");
    let cyc = crate::text::to_decimal(item.cyclomatic_complexity as u128);
    add_label_value(out, if g { "accumulated cyclomatic" } else { "cyclomatic" }, cyc.as_str());
    let cog = format_cognitive_display(item, g);
    add_label_value(out, if g { "accumulated cognitive" } else { "cognitive" }, cog.as_str());
    let nest = crate::text::to_decimal(item.nesting_depth as u128);
    add_label_value(out, if g { "max nesting" } else { "nesting" }, nest.as_str());
    if !g {
        let loc = crate::text::to_decimal(item.function_length as u128);
        add_label_value(out, "loc", loc.as_str());
    }
    add_blank_line(out);
    assert(out@ =~= old(out)@ + complexity_text(*item));
}

fn add_coverage_section(out: &mut String, item: &UnifiedDebtItem)
    ensures
        final(out)@ == old(out)@ + coverage_text(*item),
{
    add_section_header(out, "coverage");
    match item.coverage {
        Some(c) => {
            let mut v = String::new();
            push_one_decimal(&mut v, c as u128);
            push_str(&mut v, "%");
            add_label_value(out, "coverage", v.as_str());
        },
        None => {
            add_label_value(out, "coverage", "No data");
        },
    }
    add_blank_line(out);
    assert(out@ =~= old(out)@ + coverage_text(*item));
}

fn add_recommendation_section(out: &mut String, item: &UnifiedDebtItem)
    ensures
        final(out)@ == old(out)@ + recommendation_text(*item),
{
    add_section_header(out, "recommendation");
    add_label_value(out, "action", item.primary_action.as_str());
    add_blank_line(out);
    add_label_value(out, "rationale", item.rationale.as_str());
    add_blank_line(out);
    assert(out@ =~= old(out)@ + recommendation_text(*item));
}

fn add_debt_types_section(out: &mut String, at: &Vec<&UnifiedDebtItem>, item: &UnifiedDebtItem)
    ensures
        final(out)@ == old(out)@ + debt_types_text(values(at@), *item),
{
    if at.len() > 1 {
        add_section_header(out, "debt types");
        let ghost start = out@;
        let mut i: usize = 0;
        while i < at.len()
            invariant
                i <= at@.len(),
                out@ == start + debt_names_text(values(at@).take(i as int)),
            decreases at@.len() - i,
        {
            proof {
                assert(values(at@).take(i + 1).drop_last() =~= values(at@).take(i as int));
            }
            let name = format_debt_type_name(&at[i].debt_type);
            push_str(out, "  ");
            push_str(out, name.as_str());
            push_str(out, "\n");
            i = i + 1;
        }
        proof {
            assert(values(at@).take(at@.len() as int) =~= values(at@));
        }
    } else {
        add_section_header(out, "debt type");
        let name = format_debt_type_name(&item.debt_type);
        push_str(out, "  ");
        push_str(out, name.as_str());
        push_str(out, "\n");
    }
    assert(out@ =~= old(out)@ + debt_types_text(values(at@), *item));
}

/// Build the location section of the overview page.
pub fn build_location_section(item: &UnifiedDebtItem) -> (r: String)
    ensures
        r@ == location_text(*item),
{
    let mut out = String::new();
    add_location_section(&mut out, item);
    out
}

/// Build the score section of the overview page from the items at the
/// item's location.
pub fn build_score_section(items: &Vec<&UnifiedDebtItem>, item: &UnifiedDebtItem) -> (r: String)
    ensures
        r@ == score_text(values(items@), *item),
{
    let mut out = String::new();
    add_score_section(&mut out, items, item);
    out
}

/// Build the god object section of the overview page; empty for an item that
/// is no god object.
pub fn build_god_object_section(item: &UnifiedDebtItem) -> (r: String)
    ensures
        r@ == god_object_text(*item),
{
    let mut out = String::new();
    add_god_object_section(&mut out, item);
    out
}

/// Build the complexity section of the overview page.
pub fn build_complexity_section(item: &UnifiedDebtItem) -> (r: String)
    ensures
        r@ == complexity_text(*item),
{
    let mut out = String::new();
    add_complexity_section(&mut out, item);
    out
}

/// Build the coverage section of the overview page.
pub fn build_coverage_section(item: &UnifiedDebtItem) -> (r: String)
    ensures
        r@ == coverage_text(*item),
{
    let mut out = String::new();
    add_coverage_section(&mut out, item);
    out
}

/// Build the recommendation section of the overview page.
pub fn build_recommendation_section(item: &UnifiedDebtItem) -> (r: String)
    ensures
        r@ == recommendation_text(*item),
{
    let mut out = String::new();
    add_recommendation_section(&mut out, item);
    out
}

/// Build the debt types section of the overview page from the items at the
/// item's location.
pub fn build_debt_types_section(items: &Vec<&UnifiedDebtItem>, item: &UnifiedDebtItem) -> (r: String)
    ensures
        r@ == debt_types_text(values(items@), *item),
{
    let mut out = String::new();
    add_debt_types_section(&mut out, items, item);
    out
}

/// Overview page content as plain text: location, score, god object
/// structure, complexity, coverage, recommendation and debt types.
pub fn extract_overview_text(item: &UnifiedDebtItem, app: &ResultsApp) -> (r: String)
    ensures
        r@ == overview_text(*item, items_at(app.analysis_data().items@, *item)),
{
    let at = get_items_at_location(app, item);
    let mut out = build_location_section(item);
    push_str(&mut out, build_score_section(&at, item).as_str());
    push_str(&mut out, build_god_object_section(item).as_str());
    push_str(&mut out, build_complexity_section(item).as_str());
    push_str(&mut out, build_coverage_section(item).as_str());
    push_str(&mut out, build_recommendation_section(item).as_str());
    push_str(&mut out, build_debt_types_section(&at, item).as_str());
    assert(out@ =~= overview_text(*item, values(at@)));
    out
}

} // verus!
