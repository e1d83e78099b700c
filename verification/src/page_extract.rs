//! Plain text of the dependencies, git context, patterns, data flow and
//! responsibilities pages, laid out as on screen.
use vstd::prelude::*;
use crate::dependencies::{coupling_class, derive_coupling_classification};
use crate::git_context::{classify_stability, stability_class};
use crate::item::{
    ContextSuggestion, FileRange, RelatedContext, ContextDetails, ContextualRisk, DataFlowGraph, DetectedPattern, EntropyDetails, FileDebtItem, FileMetrics,
    DebtType, DetectionType, FunctionId, GodObjectIndicators, IoOperation, MutationInfo, PatternAnalysis, PurityInfo, ResponsibilityCount,
    RiskContext, RustSpecificData, UnifiedDebtItem, function_id_view, item_function_id, latest_info,
};
use crate::language_parser::{lowercased, to_lowercase};
use crate::page_availability::make_function_id;
use crate::context::{confidence_percent, format_relationship, push_range, range_text, relationship_label};
use crate::results_app::ResultsApp;
use crate::patterns::{entropy_description, entropy_level};
use crate::overview::{debt_type_name, format_debt_type_name};
use crate::page_text::{
    add_blank_line, add_label_value, add_section_header, header_text, label_value_text, one_decimal, push_one_decimal,
    score_severity,
};
use crate::text::{decimal, digit, digit_char, div_round_even, path_ranks, paths_equal, push_char, push_decimal, push_str, str_equal};

verus! {

/// `f` applied to each element of `s`, the results one after another.
pub open spec fn concat_map<T>(s: Seq<T>, f: spec_fn(T) -> Seq<char>) -> Seq<char>
    decreases s.len(),
{
    if s.len() == 0 {
        Seq::empty()
    } else {
        concat_map(s.drop_last(), f) + f(s.last())
    }
}

/// Texts joined with a separator between each two.
pub open spec fn join(parts: Seq<Seq<char>>, sep: Seq<char>) -> Seq<char>
    decreases parts.len(),
{
    if parts.len() == 0 {
        Seq::empty()
    } else if parts.len() == 1 {
        parts[0]
    } else {
        join(parts.drop_last(), sep) + sep + parts.last()
    }
}

/// The views of some strings.
pub open spec fn views(v: Seq<String>) -> Seq<Seq<char>> {
    v.map_values(|s: String| s@)
}

/// A value in hundredths with two decimals.
pub open spec fn two_decimals(h: nat) -> Seq<char> {
    decimal(h / 100) + "."@ + seq![digit_char((h / 10) % 10), digit_char(h % 10)]
}

/// A value in thousandths with three decimals.
pub open spec fn three_decimals(t: nat) -> Seq<char> {
    decimal(t / 1000) + "."@ + seq![digit_char((t / 100) % 10), digit_char((t / 10) % 10), digit_char(t % 10)]
}

/// A fraction in thousandths as a percentage with one decimal (0.125 is
/// "12.5%").
pub open spec fn tenths_percent(t: nat) -> Seq<char> {
    decimal(t / 10) + "."@ + seq![digit_char(t % 10)] + "%"@
}

/// ASCII uppercase of a character (other characters unchanged).
pub open spec fn upper(c: char) -> char {
    if 'a' <= c <= 'z' {
        ((c as u32) - 32) as char
    } else {
        c
    }
}

/// ASCII uppercase of a text.
pub open spec fn uppered(s: Seq<char>) -> Seq<char> {
    s.map_values(|c: char| upper(c))
}

/// The part of a path after its last `/` (the whole path when it has none).
pub open spec fn last_segment(s: Seq<char>) -> Seq<char>
    decreases s.len(),
{
    if s.len() == 0 {
        s
    } else if s.last() == '/' {
        Seq::empty()
    } else {
        last_segment(s.drop_last()).push(s.last())
    }
}

/// Appends a value in hundredths with two decimals.
fn push_two_decimals(out: &mut String, h: u128)
    ensures
        final(out)@ == old(out)@ + two_decimals(h as nat),
{
    push_decimal(out, h / 100);
    push_str(out, ".");
    push_char(out, digit(((h / 10) % 10) as usize));
    push_char(out, digit((h % 10) as usize));
    assert(out@ =~= old(out)@ + two_decimals(h as nat));
}

/// Appends a value in thousandths with three decimals.
fn push_three_decimals(out: &mut String, t: u32)
    ensures
        final(out)@ == old(out)@ + three_decimals(t as nat),
{
    push_decimal(out, (t / 1000) as u128);
    push_str(out, ".");
    push_char(out, digit(((t / 100) % 10) as usize));
    push_char(out, digit(((t / 10) % 10) as usize));
    push_char(out, digit((t % 10) as usize));
    assert(out@ =~= old(out)@ + three_decimals(t as nat));
}

/// Appends a fraction in thousandths as a percentage with one decimal.
fn push_tenths_percent(out: &mut String, t: u32)
    ensures
        final(out)@ == old(out)@ + tenths_percent(t as nat),
{
    push_decimal(out, (t / 10) as u128);
    push_str(out, ".");
    push_char(out, digit((t % 10) as usize));
    push_str(out, "%");
    assert(out@ =~= old(out)@ + tenths_percent(t as nat));
}

/// The uppercase letter with an ASCII code.
fn upper_letter(code: u32) -> (c: char)
    requires
        65 <= code <= 90,
    ensures
        c == code as char,
{
    match code {
        65 => 'A', 66 => 'B', 67 => 'C', 68 => 'D', 69 => 'E', 70 => 'F', 71 => 'G', 72 => 'H',
        73 => 'I', 74 => 'J', 75 => 'K', 76 => 'L', 77 => 'M', 78 => 'N', 79 => 'O', 80 => 'P',
        81 => 'Q', 82 => 'R', 83 => 'S', 84 => 'T', 85 => 'U', 86 => 'V', 87 => 'W', 88 => 'X',
        89 => 'Y', _ => 'Z',
    }
}

/// Appends the ASCII uppercase of a text.
fn push_uppered(out: &mut String, s: &str)
    ensures
        final(out)@ == old(out)@ + uppered(s@),
{
    let ghost start = out@;
    let n = s.unicode_len();
    let mut i: usize = 0;
    while i < n
        invariant
            n == s@.len(),
            i <= n,
            out@ == start + uppered(s@.take(i as int)),
        decreases n - i,
    {
        let c = s.get_char(i);
        let u = if 'a' <= c && c <= 'z' {
            upper_letter(c as u32 - 32)
        } else {
            c
        };
        push_char(out, u);
        proof {
            assert(s@.take(i + 1) =~= s@.take(i as int).push(c));
            assert(uppered(s@.take(i + 1)) =~= uppered(s@.take(i as int)).push(upper(c)));
        }
        i = i + 1;
    }
    assert(s@.take(n as int) =~= s@);
}

/// Appends the part of a path after its last `/`.
fn push_last_segment(out: &mut String, s: &str)
    ensures
        final(out)@ == old(out)@ + last_segment(s@),
{
    let n = s.unicode_len();
    let mut seg = String::new();
    let mut i: usize = 0;
    assert(s@.take(0) =~= Seq::<char>::empty());
    while i < n
        invariant
            n == s@.len(),
            i <= n,
            seg@ == last_segment(s@.take(i as int)),
        decreases n - i,
    {
        let c = s.get_char(i);
        proof {
            assert(s@.take(i + 1).drop_last() =~= s@.take(i as int));
            assert(s@.take(i + 1).last() == c);
        }
        if c == '/' {
            seg = String::new();
        } else {
            push_char(&mut seg, c);
        }
        i = i + 1;
    }
    assert(s@.take(n as int) =~= s@);
    push_str(out, seg.as_str());
}

/// Appends texts joined with a separator.
fn push_joined(out: &mut String, parts: &Vec<String>, sep: &str)
    ensures
        final(out)@ == old(out)@ + join(views(parts@), sep@),
{
    let ghost start = out@;
    let mut i: usize = 0;
    while i < parts.len()
        invariant
            i <= parts.len(),
            out@ == start + join(views(parts@.take(i as int)), sep@),
        decreases parts.len() - i,
    {
        let ghost before = views(parts@.take(i as int));
        let ghost after = views(parts@.take(i + 1));
        assert(after.drop_last() =~= before);
        assert(after.last() == parts@[i as int]@);
        if i > 0 {
            push_str(out, sep);
        }
        push_str(out, parts[i].as_str());
        proof {
            if i == 0 {
                assert(after.len() == 1);
            }
        }
        assert(out@ =~= start + join(after, sep@));
        i = i + 1;
    }
    assert(parts@.take(parts.len() as int) =~= parts@);
}

// ----------------------------------------------------------------------------
// Dependencies page
// ----------------------------------------------------------------------------

/// The metrics of the first file item whose path is `path` (compared as
/// paths).
pub open spec fn file_metrics_for(files: Seq<FileDebtItem>, path: Seq<char>) -> Option<FileMetrics>
    decreases files.len(),
{
    if files.len() == 0 {
        None
    } else if path_ranks(files[0].metrics.path@) == path_ranks(path) {
        Some(files[0].metrics)
    } else {
        file_metrics_for(files.subrange(1, files.len() as int), path)
    }
}

/// Width of the instability bar.
pub const BAR_WIDTH: u32 = 20;

/// Filled cells of the instability bar: the instability times the bar width,
/// rounded, at most the bar width.
pub open spec fn filled_cells(instability: nat) -> nat {
    let f = (instability + 2) / 5;
    if f > 20 {
        20
    } else {
        f
    }
}

/// `n` copies of a character.
pub open spec fn repeated(c: char, n: nat) -> Seq<char> {
    Seq::new(n, |i: int| c)
}

/// The instability value with its bar.
pub open spec fn instability_text(instability: nat) -> Seq<char> {
    let filled = filled_cells(instability);
    two_decimals(instability) + " "@ + repeated('█', filled) + repeated('░', (20 - filled) as nat)
}

/// The note under the coupling profile.
pub open spec fn coupling_note(total: nat, instability: nat, afferent: nat) -> Seq<char> {
    if total > 15 {
        "Warning: High coupling may indicate architectural issues.\n"@
    } else if instability < 10 && afferent > 0 {
        "Note: Stable core - changes need careful review.\n"@
    } else if instability > 90 {
        "Note: Unstable leaf - safe to refactor.\n"@
    } else {
        Seq::empty()
    }
}

/// A bulleted line naming the file of a path.
pub open spec fn bullet_line(path: String) -> Seq<char> {
    "  • "@ + last_segment(path@) + "\n"@
}

/// A titled list of at most five files, with the number of those left out.
pub open spec fn path_list_text(title: Seq<char>, paths: Seq<String>) -> Seq<char> {
    if paths.len() == 0 {
        Seq::empty()
    } else {
        let shown = if paths.len() > 5 { paths.take(5) } else { paths };
        "\n"@ + header_text(title) + concat_map(shown, |p: String| bullet_line(p)) + if paths.len() > 5 {
            "    (+"@ + decimal((paths.len() - 5) as nat) + " more)\n"@
        } else {
            Seq::empty()
        }
    }
}

/// The classification, coupling counts and instability lines of a file.
pub open spec fn coupling_head(m: FileMetrics) -> Seq<char> {
    let aff = m.afferent_coupling as nat;
    let eff = m.efferent_coupling as nat;
    let inst = m.instability as nat;
    "\n"@ + header_text("coupling profile"@) + label_value_text(
        "classification"@,
        "["@ + uppered(coupling_class(aff, eff, inst)) + "]"@,
    ) + label_value_text("afferent (ca)"@, decimal(aff)) + label_value_text("efferent (ce)"@, decimal(eff))
        + label_value_text("instability"@, instability_text(inst))
}

/// The coupling profile of a file, when it has coupling or instability.
pub open spec fn coupling_text(m: FileMetrics) -> Seq<char> {
    let aff = m.afferent_coupling as nat;
    let eff = m.efferent_coupling as nat;
    let inst = m.instability as nat;
    if aff + eff > 0 || inst > 0 {
        coupling_head(m) + coupling_note(aff + eff, inst, aff) + path_list_text(
            "dependents (who uses this)"@,
            m.dependents@,
        ) + path_list_text("dependencies (what this uses)"@, m.dependencies_list@)
    } else {
        Seq::empty()
    }
}

/// Text of the dependencies page: the function's dependency counts, then the
/// coupling profile of its file when the analysis has one.
pub open spec fn dependencies_text(item: UnifiedDebtItem, files: Seq<FileDebtItem>) -> Seq<char> {
    let up = item.upstream_dependencies as nat;
    let down = item.downstream_dependencies as nat;
    header_text("function dependencies"@) + label_value_text("upstream"@, decimal(up)) + label_value_text(
        "downstream"@,
        decimal(down),
    ) + label_value_text("blast radius"@, decimal(up + down)) + label_value_text(
        "critical"@,
        if up > 5 || down > 10 { "Yes"@ } else { "No"@ },
    ) + match file_metrics_for(files, item.location.file@) {
        Some(m) => coupling_text(m),
        None => Seq::empty(),
    }
}

/// The metrics of the first file item for a path.
fn find_file_metrics<'a>(files: &'a Vec<FileDebtItem>, path: &str) -> (r: Option<&'a FileMetrics>)
    ensures
        match r {
            Some(m) => file_metrics_for(files@, path@) == Some(*m),
            None => file_metrics_for(files@, path@) is None,
        },
{
    let mut i: usize = 0;
    assert(files@.subrange(0, files@.len() as int) =~= files@);
    while i < files.len()
        invariant
            i <= files.len(),
            file_metrics_for(files@, path@) == file_metrics_for(files@.subrange(i as int, files@.len() as int), path@),
        decreases files.len() - i,
    {
        let ghost rest = files@.subrange(i as int, files@.len() as int);
        assert(rest.subrange(1, rest.len() as int) =~= files@.subrange(i + 1, files@.len() as int));
        assert(rest[0] == files@[i as int]);
        if paths_equal(files[i].metrics.path.as_str(), path) {
            return Some(&files[i].metrics);
        }
        i = i + 1;
    }
    None
}

/// Appends `n` copies of a character.
fn push_repeated(out: &mut String, c: char, n: u32)
    ensures
        final(out)@ == old(out)@ + repeated(c, n as nat),
{
    let ghost start = out@;
    let mut k: u32 = 0;
    while k < n
        invariant
            k <= n,
            out@ == start + repeated(c, k as nat),
        decreases n - k,
    {
        push_char(out, c);
        assert(repeated(c, k as nat).push(c) =~= repeated(c, (k + 1) as nat));
        k = k + 1;
    }
}

/// Appends a titled list of at most five files.
fn push_path_list(out: &mut String, title: &str, paths: &Vec<String>)
    ensures
        final(out)@ == old(out)@ + path_list_text(title@, paths@),
{
    if paths.len() == 0 {
        assert(out@ =~= old(out)@ + path_list_text(title@, paths@));
        return;
    }
    let ghost start = out@;
    add_blank_line(out);
    add_section_header(out, title);
    let ghost head = out@;
    let shown = if paths.len() > 5 {
        5
    } else {
        paths.len()
    };
    let ghost shown_paths = if paths@.len() > 5 { paths@.take(5) } else { paths@ };
    assert(shown_paths =~= paths@.take(shown as int));
    let mut i: usize = 0;
    while i < shown
        invariant
            shown <= paths.len(),
            i <= shown,
            out@ == head + concat_map(paths@.take(i as int), |p: String| bullet_line(p)),
        decreases shown - i,
    {
        push_str(out, "  • ");
        push_last_segment(out, paths[i].as_str());
        push_str(out, "\n");
        proof {
            assert(paths@.take(i + 1).drop_last() =~= paths@.take(i as int));
            assert(paths@.take(i + 1).last() == paths@[i as int]);
        }
        assert(out@ =~= head + concat_map(paths@.take(i + 1), |p: String| bullet_line(p)));
        i = i + 1;
    }
    if paths.len() > 5 {
        push_str(out, "    (+");
        push_decimal(out, (paths.len() - 5) as u128);
        push_str(out, " more)\n");
    }
    assert(out@ =~= start + path_list_text(title@, paths@));
}

/// Appends the classification, coupling counts and instability lines.
fn push_coupling_head(out: &mut String, m: &FileMetrics)
    ensures
        final(out)@ == old(out)@ + coupling_head(*m),
{
    let ghost start = out@;
    add_blank_line(out);
    add_section_header(out, "coupling profile");
    let classification = derive_coupling_classification(m.afferent_coupling, m.efferent_coupling, m.instability);
    let mut value = String::new();
    push_str(&mut value, "[");
    push_uppered(&mut value, classification.as_str());
    push_str(&mut value, "]");
    add_label_value(out, "classification", value.as_str());
    let aff = crate::text::to_decimal(m.afferent_coupling as u128);
    add_label_value(out, "afferent (ca)", aff.as_str());
    let eff = crate::text::to_decimal(m.efferent_coupling as u128);
    add_label_value(out, "efferent (ce)", eff.as_str());
    let f = (m.instability as u64 + 2) / 5;
    let filled: u32 = if f > 20 {
        BAR_WIDTH
    } else {
        f as u32
    };
    let mut bar = String::new();
    push_two_decimals(&mut bar, m.instability as u128);
    push_str(&mut bar, " ");
    push_repeated(&mut bar, '█', filled);
    push_repeated(&mut bar, '░', BAR_WIDTH - filled);
    assert(bar@ =~= instability_text(m.instability as nat));
    add_label_value(out, "instability", bar.as_str());
    assert(out@ =~= start + coupling_head(*m));
}

/// Appends the coupling profile of a file.
fn push_coupling_profile(out: &mut String, m: &FileMetrics)
    ensures
        final(out)@ == old(out)@ + coupling_text(*m),
{
    let total = m.afferent_coupling as u128 + m.efferent_coupling as u128;
    if !(total > 0 || m.instability > 0) {
        assert(out@ =~= old(out)@ + coupling_text(*m));
        return;
    }
    let ghost start = out@;
    push_coupling_head(out, m);
    let ghost after_head = out@;
    if total > 15 {
        push_str(out, "Warning: High coupling may indicate architectural issues.\n");
    } else if m.instability < 10 && m.afferent_coupling > 0 {
        push_str(out, "Note: Stable core - changes need careful review.\n");
    } else if m.instability > 90 {
        push_str(out, "Note: Unstable leaf - safe to refactor.\n");
    }
    assert(out@ =~= after_head + coupling_note(total as nat, m.instability as nat, m.afferent_coupling as nat));
    push_path_list(out, "dependents (who uses this)", &m.dependents);
    push_path_list(out, "dependencies (what this uses)", &m.dependencies_list);
    assert(out@ =~= start + coupling_text(*m));
}

/// A titled list of every caller or callee, each by its last path segment.
pub open spec fn call_list_text(title: Seq<char>, names: Seq<String>) -> Seq<char> {
    if names.len() == 0 {
        Seq::empty()
    } else {
        "\n"@ + header_text(title) + concat_map(names, |p: String| bullet_line(p))
    }
}

/// Coupling class of a function from the functions calling it (`afferent`)
/// and called by it (`efferent`); instability is efferent over the total.
pub open spec fn function_coupling_class(afferent: nat, efferent: nat) -> Seq<char> {
    let total = afferent + efferent;
    if total > 15 {
        "Highly Coupled"@
    } else if total <= 2 {
        "Isolated"@
    } else if 10 * efferent < 3 * total && afferent > efferent {
        "Stable Core"@
    } else if 10 * efferent > 7 * total && efferent > afferent {
        "Leaf Module"@
    } else {
        "Utility Module"@
    }
}

/// The instability of a function with its bar of twenty cells, filled in
/// proportion, rounding halves up.
pub open spec fn function_instability_text(efferent: nat, total: nat) -> Seq<char> {
    let filled = (40 * efferent + total) / (2 * total);
    two_decimals(div_round_even(100 * efferent, total)) + " "@ + repeated('█', filled) + repeated(
        '░',
        (20 - filled) as nat,
    )
}

/// The note under a function's coupling profile.
pub open spec fn function_coupling_note(afferent: nat, efferent: nat) -> Seq<char> {
    let total = afferent + efferent;
    if total > 15 {
        "Warning: High coupling may indicate architectural issues.\n"@
    } else if 10 * efferent < total && afferent > 0 {
        "Note: Stable core - changes need careful review.\n"@
    } else if 10 * efferent > 9 * total {
        "Note: Unstable leaf - safe to refactor.\n"@
    } else {
        Seq::empty()
    }
}

/// The classification, coupling counts and instability lines of a function.
pub open spec fn function_coupling_head(up: nat, down: nat) -> Seq<char> {
    "\n"@ + header_text("coupling profile"@) + label_value_text(
        "classification"@,
        "["@ + uppered(function_coupling_class(up, down)) + "]"@,
    ) + label_value_text("afferent (ca)"@, decimal(up)) + label_value_text("efferent (ce)"@, decimal(down))
        + label_value_text("instability"@, function_instability_text(down, up + down))
}

/// The coupling profile of a function, where it calls or is called.
pub open spec fn function_coupling_text(item: UnifiedDebtItem) -> Seq<char> {
    let up = item.upstream_dependencies as nat;
    let down = item.downstream_dependencies as nat;
    if up + down == 0 {
        Seq::empty()
    } else {
        function_coupling_head(up, down) + function_coupling_note(up, down) + call_list_text(
            "dependents (who calls this)"@,
            item.upstream_callers@,
        ) + call_list_text("dependencies (what this calls)"@, item.downstream_callees@)
    }
}

/// Text of the dependencies page: the function's dependency counts and its
/// coupling profile with every caller and callee.
pub open spec fn function_dependencies_text(item: UnifiedDebtItem) -> Seq<char> {
    let up = item.upstream_dependencies as nat;
    let down = item.downstream_dependencies as nat;
    header_text("function dependencies"@) + label_value_text("upstream"@, decimal(up)) + label_value_text(
        "downstream"@,
        decimal(down),
    ) + label_value_text("blast radius"@, decimal(up + down)) + label_value_text(
        "critical"@,
        if up > 5 || down > 10 { "Yes"@ } else { "No"@ },
    ) + function_coupling_text(item)
}

fn push_call_list(out: &mut String, title: &str, names: &Vec<String>)
    ensures
        final(out)@ == old(out)@ + call_list_text(title@, names@),
{
    if names.len() == 0 {
        assert(out@ =~= old(out)@ + call_list_text(title@, names@));
        return;
    }
    let ghost start = out@;
    add_blank_line(out);
    add_section_header(out, title);
    let ghost head = out@;
    let mut i: usize = 0;
    while i < names.len()
        invariant
            i <= names.len(),
            out@ == head + concat_map(names@.take(i as int), |p: String| bullet_line(p)),
        decreases names.len() - i,
    {
        push_str(out, "  • ");
        push_last_segment(out, names[i].as_str());
        push_str(out, "\n");
        proof {
            assert(names@.take(i + 1).drop_last() =~= names@.take(i as int));
            assert(names@.take(i + 1).last() == names@[i as int]);
        }
        assert(out@ =~= head + concat_map(names@.take(i + 1), |p: String| bullet_line(p)));
        i = i + 1;
    }
    assert(names@.take(names@.len() as int) =~= names@);
    assert(out@ =~= start + call_list_text(title@, names@));
}

fn push_function_instability(out: &mut String, efferent: u128, total: u128)
    requires
        efferent <= total,
        0 < total <= 2 * (usize::MAX as u128),
    ensures
        final(out)@ == old(out)@ + label_value_text("instability"@, function_instability_text(efferent as nat, total as nat)),
{
    let e = efferent;
    let t = total;
    let h = crate::text::round_div_even(100 * e, t);
    let filled = (40 * e + t) / (2 * t);
    assert(filled <= 20) by (nonlinear_arith)
        requires
            filled == (40 * e + t) / (2 * t),
            e <= t,
            t > 0,
    ;
    assert(filled == (40 * (e as nat) + (t as nat)) / (2 * (t as nat)));
    let mut bar = String::new();
    push_two_decimals(&mut bar, h);
    push_str(&mut bar, " ");
    push_repeated(&mut bar, '█', filled as u32);
    push_repeated(&mut bar, '░', (20 - filled) as u32);
    assert(bar@ =~= function_instability_text(efferent as nat, total as nat));
    add_label_value(out, "instability", bar.as_str());
}

fn push_function_coupling_head(out: &mut String, up: usize, down: usize)
    requires
        up + down > 0,
    ensures
        final(out)@ == old(out)@ + function_coupling_head(up as nat, down as nat),
{
    let total = up as u128 + down as u128;
    let ghost start = out@;
    add_blank_line(out);
    add_section_header(out, "coupling profile");
    let class = if total > 15 {
        "Highly Coupled"
    } else if total <= 2 {
        "Isolated"
    } else if 10 * (down as u128) < 3 * total && up > down {
        "Stable Core"
    } else if 10 * (down as u128) > 7 * total && down > up {
        "Leaf Module"
    } else {
        "Utility Module"
    };
    assert(class@ == function_coupling_class(up as nat, down as nat));
    let mut value = String::new();
    push_str(&mut value, "[");
    push_uppered(&mut value, class);
    push_str(&mut value, "]");
    add_label_value(out, "classification", value.as_str());
    let aff = crate::text::to_decimal(up as u128);
    add_label_value(out, "afferent (ca)", aff.as_str());
    let eff = crate::text::to_decimal(down as u128);
    add_label_value(out, "efferent (ce)", eff.as_str());
    push_function_instability(out, down as u128, total);
    assert(out@ =~= start + function_coupling_head(up as nat, down as nat));
}

fn push_function_coupling_note(out: &mut String, up: usize, down: usize)
    ensures
        final(out)@ == old(out)@ + function_coupling_note(up as nat, down as nat),
{
    let total = up as u128 + down as u128;
    if total > 15 {
        push_str(out, "Warning: High coupling may indicate architectural issues.\n");
    } else if 10 * (down as u128) < total && up > 0 {
        push_str(out, "Note: Stable core - changes need careful review.\n");
    } else if 10 * (down as u128) > 9 * total {
        push_str(out, "Note: Unstable leaf - safe to refactor.\n");
    } else {
        assert(out@ =~= old(out)@ + function_coupling_note(up as nat, down as nat));
    }
}

fn push_function_coupling(out: &mut String, item: &UnifiedDebtItem)
    ensures
        final(out)@ == old(out)@ + function_coupling_text(*item),
{
    let up = item.upstream_dependencies;
    let down = item.downstream_dependencies;
    if up == 0 && down == 0 {
        assert(out@ =~= old(out)@ + function_coupling_text(*item));
        return;
    }
    let ghost start = out@;
    push_function_coupling_head(out, up, down);
    push_function_coupling_note(out, up, down);
    push_call_list(out, "dependents (who calls this)", &item.upstream_callers);
    push_call_list(out, "dependencies (what this calls)", &item.downstream_callees);
    assert(out@ =~= start + function_coupling_text(*item));
}

/// Extract the dependencies page as plain text.
pub fn extract_function_dependencies_text(item: &UnifiedDebtItem) -> (r: String)
    ensures
        r@ == function_dependencies_text(*item),
{
    let mut out = String::new();
    add_section_header(&mut out, "function dependencies");
    let up = crate::text::to_decimal(item.upstream_dependencies as u128);
    add_label_value(&mut out, "upstream", up.as_str());
    let down = crate::text::to_decimal(item.downstream_dependencies as u128);
    add_label_value(&mut out, "downstream", down.as_str());
    let blast = crate::text::to_decimal(item.upstream_dependencies as u128 + item.downstream_dependencies as u128);
    add_label_value(&mut out, "blast radius", blast.as_str());
    let critical = if item.upstream_dependencies > 5 || item.downstream_dependencies > 10 {
        "Yes"
    } else {
        "No"
    };
    add_label_value(&mut out, "critical", critical);
    push_function_coupling(&mut out, item);
    assert(out@ =~= function_dependencies_text(*item));
    out
}

/// Extract dependencies page content as plain text.
pub fn extract_dependencies_text(item: &UnifiedDebtItem, app: &ResultsApp) -> (r: String)
    ensures
        r@ == dependencies_text(*item, app.analysis_data().file_items@),
{
    let files = &app.analysis().file_items;
    let mut out = String::new();
    add_section_header(&mut out, "function dependencies");
    let up = crate::text::to_decimal(item.upstream_dependencies as u128);
    add_label_value(&mut out, "upstream", up.as_str());
    let down = crate::text::to_decimal(item.downstream_dependencies as u128);
    add_label_value(&mut out, "downstream", down.as_str());
    let blast = crate::text::to_decimal(item.upstream_dependencies as u128 + item.downstream_dependencies as u128);
    add_label_value(&mut out, "blast radius", blast.as_str());
    let critical = if item.upstream_dependencies > 5 || item.downstream_dependencies > 10 {
        "Yes"
    } else {
        "No"
    };
    add_label_value(&mut out, "critical", critical);
    match find_file_metrics(files, item.location.file.as_str()) {
        Some(m) => push_coupling_profile(&mut out, m),
        None => {},
    }
    assert(out@ =~= dependencies_text(*item, app.analysis_data().file_items@));
    out
}

// ----------------------------------------------------------------------------
// Git context page
// ----------------------------------------------------------------------------

/// The first context that a provider contributed.
pub open spec fn context_of(contexts: Seq<RiskContext>, provider: Seq<char>) -> Option<RiskContext>
    decreases contexts.len(),
{
    if contexts.len() == 0 {
        None
    } else if contexts[0].provider@ == provider {
        Some(contexts[0])
    } else {
        context_of(contexts.subrange(1, contexts.len() as int), provider)
    }
}

/// The activity of a function: its commits and their monthly frequency.
pub open spec fn activity_text(total_commits: nat, change_frequency: nat) -> Seq<char> {
    if total_commits == 0 {
        "0 commits"@
    } else {
        decimal(total_commits) + (if total_commits == 1 { " commit"@ } else { " commits"@ }) + " ("@ + two_decimals(
            change_frequency,
        ) + "/month)"@
    }
}

/// The fix rate of a function: bug fixes among the changes since its
/// introduction.
pub open spec fn fix_rate_text(total_commits: nat, bug_fix_count: nat) -> Seq<char> {
    let changes: nat = if total_commits > 0 { (total_commits - 1) as nat } else { 0 };
    if changes == 0 {
        "no changes since intro"@
    } else {
        decimal(bug_fix_count) + (if bug_fix_count == 1 { " fix"@ } else { " fixes"@ }) + " / "@ + decimal(changes)
            + (if changes == 1 { " change"@ } else { " changes"@ })
    }
}

/// The change patterns section, from the git history context.
pub open spec fn history_text(contexts: Seq<RiskContext>) -> Seq<char> {
    match context_of(contexts, "git_history"@) {
        Some(c) => match c.details {
            ContextDetails::Historical {
                change_frequency,
                bug_density,
                age_days,
                author_count,
                total_commits,
                bug_fix_count,
            } => header_text("change patterns"@) + label_value_text(
                "activity"@,
                activity_text(total_commits as nat, change_frequency as nat),
            ) + label_value_text("stability"@, stability_class(change_frequency as nat)) + label_value_text(
                "fix rate"@,
                fix_rate_text(total_commits as nat, bug_fix_count as nat),
            ) + label_value_text("age"@, decimal(age_days as nat) + " days"@) + label_value_text(
                "contributors"@,
                decimal(author_count as nat),
            ) + "\n"@,
            ContextDetails::Other => Seq::empty(),
        },
        None => Seq::empty(),
    }
}

fn activity_value(total_commits: u32, change_frequency: u32) -> (r: String)
    ensures
        r@ == activity_text(total_commits as nat, change_frequency as nat),
{
    let mut v = String::new();
    if total_commits == 0 {
        push_str(&mut v, "0 commits");
    } else {
        push_decimal(&mut v, total_commits as u128);
        push_str(&mut v, if total_commits == 1 { " commit" } else { " commits" });
        push_str(&mut v, " (");
        push_two_decimals(&mut v, change_frequency as u128);
        push_str(&mut v, "/month)");
    }
    assert(v@ =~= activity_text(total_commits as nat, change_frequency as nat));
    v
}

fn fix_rate_value(total_commits: u32, bug_fix_count: u32) -> (r: String)
    ensures
        r@ == fix_rate_text(total_commits as nat, bug_fix_count as nat),
{
    let changes: u32 = if total_commits > 0 { total_commits - 1 } else { 0 };
    let mut v = String::new();
    if changes == 0 {
        push_str(&mut v, "no changes since intro");
    } else {
        push_decimal(&mut v, bug_fix_count as u128);
        push_str(&mut v, if bug_fix_count == 1 { " fix" } else { " fixes" });
        push_str(&mut v, " / ");
        push_decimal(&mut v, changes as u128);
        push_str(&mut v, if changes == 1 { " change" } else { " changes" });
    }
    assert(v@ =~= fix_rate_text(total_commits as nat, bug_fix_count as nat));
    v
}

/// Contextual risk over base risk in hundredths, rounded halves to even; 1.0 when
/// the base risk is zero.
pub open spec fn ratio_hundredths(contextual: nat, base: nat) -> nat {
    if base > 0 {
        div_round_even(100 * contextual, base)
    } else {
        100
    }
}

/// The risk impact section.
pub open spec fn risk_impact_text(r: ContextualRisk) -> Seq<char> {
    header_text("risk impact"@) + label_value_text("base"@, one_decimal(r.base_risk as nat)) + label_value_text(
        "contextual"@,
        one_decimal(r.contextual_risk as nat),
    ) + label_value_text(
        "multiplier"@,
        two_decimals(ratio_hundredths(r.contextual_risk as nat, r.base_risk as nat)) + "x"@,
    ) + "\n"@
}

/// The score reduction of a multiplier in thousandths, as a percentage with
/// one decimal (negative for a multiplier above one).
pub open spec fn reduction_text(multiplier: nat) -> Seq<char> {
    if multiplier <= 1000 {
        tenths_percent((1000 - multiplier) as nat)
    } else {
        "-"@ + tenths_percent((multiplier - 1000) as nat)
    }
}

/// The context dampening section, when the item's file has a kind.
pub open spec fn dampening_text(item: UnifiedDebtItem) -> Seq<char> {
    match item.context_type {
        Some(t) => header_text("context dampening"@) + label_value_text("file type"@, t@) + match item.context_multiplier {
            Some(m) => label_value_text("reduction"@, reduction_text(m as nat)),
            None => Seq::empty(),
        } + "\n"@,
        None => Seq::empty(),
    }
}

/// The sections of the git context page.
pub open spec fn git_context_sections(item: UnifiedDebtItem) -> Seq<char> {
    let risk = match item.contextual_risk {
        Some(r) => history_text(r.contexts@) + risk_impact_text(r),
        None => Seq::empty(),
    };
    risk + dampening_text(item)
}

/// Text of the git context page: change patterns and risk impact when the
/// item has contextual risk, context dampening when its file has a kind, or
/// a note that there is no such data.
pub open spec fn git_context_text(item: UnifiedDebtItem) -> Seq<char> {
    let body = git_context_sections(item);
    if body.len() == 0 {
        "No git context data available\n"@
    } else {
        body
    }
}

/// The first context that a provider contributed.
fn find_context<'a>(contexts: &'a Vec<RiskContext>, provider: &str) -> (r: Option<&'a RiskContext>)
    ensures
        match r {
            Some(c) => context_of(contexts@, provider@) == Some(*c),
            None => context_of(contexts@, provider@) is None,
        },
{
    let mut i: usize = 0;
    assert(contexts@.subrange(0, contexts@.len() as int) =~= contexts@);
    while i < contexts.len()
        invariant
            i <= contexts.len(),
            context_of(contexts@, provider@) == context_of(
                contexts@.subrange(i as int, contexts@.len() as int),
                provider@,
            ),
        decreases contexts.len() - i,
    {
        let ghost rest = contexts@.subrange(i as int, contexts@.len() as int);
        assert(rest.subrange(1, rest.len() as int) =~= contexts@.subrange(i + 1, contexts@.len() as int));
        assert(rest[0] == contexts@[i as int]);
        if str_equal(contexts[i].provider.as_str(), provider) {
            return Some(&contexts[i]);
        }
        i = i + 1;
    }
    None
}

/// Appends the change patterns section.
fn push_history(out: &mut String, contexts: &Vec<RiskContext>)
    ensures
        final(out)@ == old(out)@ + history_text(contexts@),
{
    let ghost start = out@;
    proof {
        reveal_strlit("git_history");
    }
    match find_context(contexts, "git_history") {
        Some(c) => match c.details {
            ContextDetails::Historical {
                change_frequency,
                bug_density,
                age_days,
                author_count,
                total_commits,
                bug_fix_count,
            } => {
                add_section_header(out, "change patterns");
                let activity = activity_value(total_commits, change_frequency);
                add_label_value(out, "activity", activity.as_str());
                add_label_value(out, "stability", classify_stability(change_frequency));
                let fixes = fix_rate_value(total_commits, bug_fix_count);
                add_label_value(out, "fix rate", fixes.as_str());
                let mut age = String::new();
                push_decimal(&mut age, age_days as u128);
                push_str(&mut age, " days");
                add_label_value(out, "age", age.as_str());
                let authors = crate::text::to_decimal(author_count as u128);
                add_label_value(out, "contributors", authors.as_str());
                add_blank_line(out);
            },
            ContextDetails::Other => {},
        },
        None => {},
    }
    assert(out@ =~= start + history_text(contexts@));
}

/// Appends the risk impact section.
fn push_risk_impact(out: &mut String, r: &ContextualRisk)
    ensures
        final(out)@ == old(out)@ + risk_impact_text(*r),
{
    let ghost start = out@;
    add_section_header(out, "risk impact");
    let mut base = String::new();
    push_one_decimal(&mut base, r.base_risk as u128);
    add_label_value(out, "base", base.as_str());
    let mut ctx = String::new();
    push_one_decimal(&mut ctx, r.contextual_risk as u128);
    add_label_value(out, "contextual", ctx.as_str());
    let ratio: u128 = if r.base_risk > 0 {
        crate::text::round_div_even(100 * r.contextual_risk as u128, r.base_risk as u128)
    } else {
        100
    };
    let mut mult = String::new();
    push_two_decimals(&mut mult, ratio as u128);
    push_str(&mut mult, "x");
    add_label_value(out, "multiplier", mult.as_str());
    add_blank_line(out);
    assert(out@ =~= start + risk_impact_text(*r));
}

/// Appends the context dampening section.
fn push_dampening(out: &mut String, item: &UnifiedDebtItem)
    ensures
        final(out)@ == old(out)@ + dampening_text(*item),
{
    let ghost start = out@;
    match &item.context_type {
        Some(t) => {
            add_section_header(out, "context dampening");
            add_label_value(out, "file type", t.as_str());
            match item.context_multiplier {
                Some(m) => {
                    let mut red = String::new();
                    if m <= 1000 {
                        push_tenths_percent(&mut red, 1000 - m);
                    } else {
                        push_str(&mut red, "-");
                        push_tenths_percent(&mut red, m - 1000);
                    }
                    assert(red@ =~= reduction_text(m as nat));
                    add_label_value(out, "reduction", red.as_str());
                },
                None => {},
            }
            add_blank_line(out);
        },
        None => {},
    }
    assert(out@ =~= start + dampening_text(*item));
}

/// Extract git context page content as plain text.
pub fn extract_git_context_text(item: &UnifiedDebtItem) -> (r: String)
    ensures
        r@ == git_context_text(*item),
{
    let mut out = String::new();
    match &item.contextual_risk {
        Some(r) => {
            push_history(&mut out, &r.contexts);
            push_risk_impact(&mut out, r);
        },
        None => {},
    }
    push_dampening(&mut out, item);
    assert(out@ =~= git_context_sections(*item));
    if out.as_str().unicode_len() == 0 {
        let mut note = String::new();
        push_str(&mut note, "No git context data available\n");
        return note;
    }
    out
}

// ----------------------------------------------------------------------------
// Patterns page
// ----------------------------------------------------------------------------

/// The entropy value with its level.
pub open spec fn entropy_value(score: nat) -> Seq<char> {
    three_decimals(score) + " "@ + entropy_level(score)
}

/// The entropy analysis section.
pub open spec fn entropy_text(e: EntropyDetails) -> Seq<char> {
    header_text("entropy analysis"@) + label_value_text("entropy"@, entropy_value(e.entropy_score as nat))
        + label_value_text("repetition"@, three_decimals(e.pattern_repetition as nat)) + if e.dampening_factor < 1000 {
        label_value_text("dampening"@, three_decimals(e.dampening_factor as nat) + "x reduction"@) + label_value_text(
            "cognitive complexity"@,
            decimal(e.original_complexity as nat) + " → "@ + decimal(e.adjusted_cognitive as nat) + " (dampened)"@,
        ) + "\n"@
    } else {
        label_value_text("dampening"@, "No"@) + "\n"@
    }
}

/// The pattern analysis section, when frameworks or trait implementations
/// were found.
pub open spec fn pattern_analysis_text(p: PatternAnalysis) -> Seq<char> {
    if !p.frameworks_detected && p.trait_impls == 0 {
        Seq::empty()
    } else {
        header_text("pattern analysis"@) + (if p.frameworks_detected {
            label_value_text("frameworks"@, "Detected"@)
        } else {
            Seq::empty()
        }) + (if p.trait_impls > 0 {
            label_value_text("traits"@, decimal(p.trait_impls as nat))
        } else {
            Seq::empty()
        }) + "\n"@
    }
}

/// The detected patterns section.
pub open spec fn detected_pattern_text(d: DetectedPattern) -> Seq<char> {
    header_text("detected patterns"@) + label_value_text("pattern"@, d.pattern_type@) + label_value_text(
        "confidence"@,
        tenths_percent(d.confidence as nat),
    ) + "\n"@
}

/// A count of detected patterns, when there are any.
pub open spec fn count_line(label: Seq<char>, n: nat) -> Seq<char> {
    if n > 0 {
        label_value_text(label, decimal(n) + " detected"@)
    } else {
        Seq::empty()
    }
}

/// The Rust-specific section, when there is something to show.
pub open spec fn language_text(r: RustSpecificData) -> Seq<char> {
    if r.trait_impl is None && r.async_patterns == 0 && r.error_patterns == 0 && r.builder_patterns == 0 {
        Seq::empty()
    } else {
        header_text("language-specific (rust)"@) + match r.trait_impl {
            Some(t) => label_value_text("trait"@, t@),
            None => Seq::empty(),
        } + count_line("async"@, r.async_patterns as nat) + count_line("errors"@, r.error_patterns as nat)
            + count_line("builders"@, r.builder_patterns as nat) + "\n"@
    }
}

/// The purity analysis section.
pub open spec fn purity_text(p: PurityInfo) -> Seq<char> {
    header_text("purity analysis"@) + label_value_text("pure"@, if p.is_pure { "Yes"@ } else { "No"@ })
        + label_value_text("confidence"@, tenths_percent(p.confidence as nat)) + (if p.impurity_reasons@.len() > 0 {
        label_value_text("reasons"@, join(views(p.impurity_reasons@), ", "@))
    } else {
        Seq::empty()
    }) + "\n"@
}

/// One line per error pattern.
pub open spec fn pattern_lines(patterns: Seq<String>) -> Seq<char> {
    concat_map(patterns, |p: String| label_value_text("pattern"@, p@))
}

/// The error handling section, when error swallowing was found.
pub open spec fn error_handling_text(count: Option<u32>, patterns: Option<Vec<String>>) -> Seq<char> {
    if count is None && patterns is None {
        Seq::empty()
    } else {
        header_text("error handling"@) + match count {
            Some(c) => label_value_text("errors swallowed"@, decimal(c as nat)),
            None => Seq::empty(),
        } + match patterns {
            Some(ps) => pattern_lines(ps@),
            None => Seq::empty(),
        } + "\n"@
    }
}

/// The aggregated entropy section of a god object.
pub open spec fn god_entropy_text(e: EntropyDetails) -> Seq<char> {
    header_text("god object entropy (aggregated)"@) + label_value_text("entropy"@, entropy_value(e.entropy_score as nat))
        + label_value_text("repetition"@, three_decimals(e.pattern_repetition as nat)) + label_value_text(
        "total complexity"@,
        decimal(e.original_complexity as nat) + " (original) → "@ + decimal(e.adjusted_cognitive as nat)
            + " (adjusted)"@,
    ) + (if e.dampening_factor < 1000 {
        label_value_text("dampening"@, three_decimals(e.dampening_factor as nat) + "x reduction"@)
    } else {
        Seq::empty()
    }) + "\n"@
}

/// The aggregated error handling section of a god object, when it has data.
pub open spec fn god_error_text(count: Option<u32>, patterns: Option<Vec<String>>) -> Seq<char> {
    let has_patterns = match patterns {
        Some(ps) => ps@.len() > 0,
        None => false,
    };
    if count is None && !has_patterns {
        Seq::empty()
    } else {
        header_text("god object error handling (aggregated)"@) + match count {
            Some(c) => label_value_text("errors swallowed"@, decimal(c as nat) + " across all functions"@),
            None => Seq::empty(),
        } + match patterns {
            Some(ps) => label_value_text("unique patterns"@, decimal(ps@.len())) + pattern_lines(ps@),
            None => Seq::empty(),
        } + "\n"@
    }
}

/// The aggregated sections of a god object.
pub open spec fn god_pattern_text(g: GodObjectIndicators) -> Seq<char> {
    if g.is_god_object {
        let entropy = match g.aggregated_entropy {
            Some(e) => god_entropy_text(e),
            None => Seq::empty(),
        };
        entropy + god_error_text(g.aggregated_error_swallowing_count, g.aggregated_error_swallowing_patterns)
    } else {
        Seq::empty()
    }
}

/// The sections of the patterns page, given the purity information of the
/// item's function.
pub open spec fn pattern_sections(item: UnifiedDebtItem, purity: Option<PurityInfo>) -> Seq<char> {
    let entropy = match item.entropy_details {
        Some(e) => entropy_text(e),
        None => Seq::empty(),
    };
    let analysis = match item.pattern_analysis {
        Some(p) => pattern_analysis_text(p),
        None => Seq::empty(),
    };
    let detected = match item.detected_pattern {
        Some(d) => detected_pattern_text(d),
        None => Seq::empty(),
    };
    let language = match item.language_specific {
        Some(r) => language_text(r),
        None => Seq::empty(),
    };
    let pure = match purity {
        Some(p) => purity_text(p),
        None => Seq::empty(),
    };
    let god = match item.god_object_indicators {
        Some(g) => god_pattern_text(g),
        None => Seq::empty(),
    };
    entropy + analysis + detected + language + pure + error_handling_text(
        item.error_swallowing_count,
        item.error_swallowing_patterns,
    ) + god
}

/// Text of the patterns page, or a note that there is no pattern data.
pub open spec fn patterns_text(item: UnifiedDebtItem, purity: Option<PurityInfo>) -> Seq<char> {
    let body = pattern_sections(item, purity);
    if body.len() == 0 {
        "No pattern data available\n"@
    } else {
        body
    }
}

/// Appends an entropy value with its level.
fn push_entropy_value(out: &mut String, score: u32)
    ensures
        final(out)@ == old(out)@ + entropy_value(score as nat),
{
    push_three_decimals(out, score);
    push_str(out, " ");
    push_str(out, entropy_description(score));
    assert(out@ =~= old(out)@ + entropy_value(score as nat));
}

/// The text of an optional section: its text, or nothing.
pub open spec fn section_or_empty(s: Option<String>) -> Seq<char> {
    match s {
        Some(t) => t@,
        None => Seq::empty(),
    }
}

/// Format entropy analysis section.
fn format_entropy_section(e: &EntropyDetails) -> (r: Option<String>)
    ensures
        section_or_empty(r) == entropy_text(*e),
{
    let mut out = String::new();
    add_section_header(&mut out, "entropy analysis");
    let mut v = String::new();
    push_entropy_value(&mut v, e.entropy_score);
    add_label_value(&mut out, "entropy", v.as_str());
    let mut rep = String::new();
    push_three_decimals(&mut rep, e.pattern_repetition);
    add_label_value(&mut out, "repetition", rep.as_str());
    if e.dampening_factor < 1000 {
        let mut d = String::new();
        push_three_decimals(&mut d, e.dampening_factor);
        push_str(&mut d, "x reduction");
        add_label_value(&mut out, "dampening", d.as_str());
        let mut c = String::new();
        push_decimal(&mut c, e.original_complexity as u128);
        push_str(&mut c, " → ");
        push_decimal(&mut c, e.adjusted_cognitive as u128);
        push_str(&mut c, " (dampened)");
        add_label_value(&mut out, "cognitive complexity", c.as_str());
    } else {
        add_label_value(&mut out, "dampening", "No");
    }
    add_blank_line(&mut out);
    assert(out@ =~= entropy_text(*e));
    Some(out)
}

/// Format pattern analysis section - none when no frameworks or trait
/// implementations were found.
fn format_pattern_analysis_section(p: &PatternAnalysis) -> (r: Option<String>)
    ensures
        section_or_empty(r) == pattern_analysis_text(*p),
{
    if !p.frameworks_detected && p.trait_impls == 0 {
        return None;
    }
    let mut out = String::new();
    add_section_header(&mut out, "pattern analysis");
    if p.frameworks_detected {
        add_label_value(&mut out, "frameworks", "Detected");
    }
    if p.trait_impls > 0 {
        let n = crate::text::to_decimal(p.trait_impls as u128);
        add_label_value(&mut out, "traits", n.as_str());
    }
    add_blank_line(&mut out);
    assert(out@ =~= pattern_analysis_text(*p));
    Some(out)
}

/// Format detected pattern section.
fn format_detected_pattern_section(d: &DetectedPattern) -> (r: Option<String>)
    ensures
        section_or_empty(r) == detected_pattern_text(*d),
{
    let mut out = String::new();
    add_section_header(&mut out, "detected patterns");
    add_label_value(&mut out, "pattern", d.pattern_type.as_str());
    let mut c = String::new();
    push_tenths_percent(&mut c, d.confidence);
    add_label_value(&mut out, "confidence", c.as_str());
    add_blank_line(&mut out);
    assert(out@ =~= detected_pattern_text(*d));
    Some(out)
}

/// Appends a count of detected patterns, when there are any.
fn push_count_line(out: &mut String, label: &str, n: usize)
    ensures
        final(out)@ == old(out)@ + count_line(label@, n as nat),
{
    if n > 0 {
        let mut v = String::new();
        push_decimal(&mut v, n as u128);
        push_str(&mut v, " detected");
        add_label_value(out, label, v.as_str());
    }
    assert(out@ =~= old(out)@ + count_line(label@, n as nat));
}

/// Format language-specific section - none when there is nothing to show.
fn format_language_specific_section(r: &RustSpecificData) -> (res: Option<String>)
    ensures
        section_or_empty(res) == language_text(*r),
{
    if r.trait_impl.is_none() && r.async_patterns == 0 && r.error_patterns == 0 && r.builder_patterns == 0 {
        return None;
    }
    let mut out = String::new();
    add_section_header(&mut out, "language-specific (rust)");
    match &r.trait_impl {
        Some(t) => add_label_value(&mut out, "trait", t.as_str()),
        None => {},
    }
    push_count_line(&mut out, "async", r.async_patterns);
    push_count_line(&mut out, "errors", r.error_patterns);
    push_count_line(&mut out, "builders", r.builder_patterns);
    add_blank_line(&mut out);
    assert(out@ =~= language_text(*r));
    Some(out)
}

/// Format purity analysis section - none when the data flow analysis has no
/// purity information for the function.
fn format_purity_section(func_id: &FunctionId, data_flow: &DataFlowGraph) -> (r: Option<String>)
    ensures
        section_or_empty(r) == match latest_info(data_flow.purity_entries(), function_id_view(*func_id)) {
            Some(p) => purity_text(p),
            None => Seq::<char>::empty(),
        },
{
    let p = match data_flow.get_purity_info(func_id) {
        Some(p) => p,
        None => return None,
    };
    let mut out = String::new();
    add_section_header(&mut out, "purity analysis");
    add_label_value(
        &mut out,
        "pure",
        if p.is_pure {
            "Yes"
        } else {
            "No"
        },
    );
    let mut c = String::new();
    push_tenths_percent(&mut c, p.confidence);
    add_label_value(&mut out, "confidence", c.as_str());
    if p.impurity_reasons.len() > 0 {
        let mut reasons = String::new();
        push_joined(&mut reasons, &p.impurity_reasons, ", ");
        add_label_value(&mut out, "reasons", reasons.as_str());
    }
    add_blank_line(&mut out);
    assert(out@ =~= purity_text(*p));
    Some(out)
}

/// Appends one line per error pattern.
fn push_pattern_lines(out: &mut String, patterns: &Vec<String>)
    ensures
        final(out)@ == old(out)@ + pattern_lines(patterns@),
{
    let ghost start = out@;
    let mut i: usize = 0;
    while i < patterns.len()
        invariant
            i <= patterns.len(),
            out@ == start + pattern_lines(patterns@.take(i as int)),
        decreases patterns.len() - i,
    {
        add_label_value(out, "pattern", patterns[i].as_str());
        proof {
            assert(patterns@.take(i + 1).drop_last() =~= patterns@.take(i as int));
            assert(patterns@.take(i + 1).last() == patterns@[i as int]);
        }
        assert(out@ =~= start + pattern_lines(patterns@.take(i + 1)));
        i = i + 1;
    }
    assert(patterns@.take(patterns.len() as int) =~= patterns@);
}

/// Format error handling section - none when no error swallowing was found.
fn format_error_handling_section(error_count: Option<u32>, error_patterns: &Option<Vec<String>>) -> (r: Option<
    String,
>)
    ensures
        section_or_empty(r) == error_handling_text(error_count, *error_patterns),
{
    if error_count.is_none() && error_patterns.is_none() {
        return None;
    }
    let mut out = String::new();
    add_section_header(&mut out, "error handling");
    match error_count {
        Some(c) => {
            let n = crate::text::to_decimal(c as u128);
            add_label_value(&mut out, "errors swallowed", n.as_str());
        },
        None => {},
    }
    match error_patterns {
        Some(ps) => push_pattern_lines(&mut out, ps),
        None => {},
    }
    add_blank_line(&mut out);
    assert(out@ =~= error_handling_text(error_count, *error_patterns));
    Some(out)
}

/// Format god object aggregated entropy section.
fn format_god_object_entropy_section(e: &EntropyDetails) -> (r: Option<String>)
    ensures
        section_or_empty(r) == god_entropy_text(*e),
{
    let mut out = String::new();
    add_section_header(&mut out, "god object entropy (aggregated)");
    let mut v = String::new();
    push_entropy_value(&mut v, e.entropy_score);
    add_label_value(&mut out, "entropy", v.as_str());
    let mut rep = String::new();
    push_three_decimals(&mut rep, e.pattern_repetition);
    add_label_value(&mut out, "repetition", rep.as_str());
    let mut c = String::new();
    push_decimal(&mut c, e.original_complexity as u128);
    push_str(&mut c, " (original) → ");
    push_decimal(&mut c, e.adjusted_cognitive as u128);
    push_str(&mut c, " (adjusted)");
    add_label_value(&mut out, "total complexity", c.as_str());
    if e.dampening_factor < 1000 {
        let mut d = String::new();
        push_three_decimals(&mut d, e.dampening_factor);
        push_str(&mut d, "x reduction");
        add_label_value(&mut out, "dampening", d.as_str());
    }
    add_blank_line(&mut out);
    assert(out@ =~= god_entropy_text(*e));
    Some(out)
}

/// Format god object aggregated error handling section - none when there
/// is no error data.
fn format_god_object_error_handling_section(error_count: Option<u32>, error_patterns: &Option<Vec<String>>) -> (r:
    Option<String>)
    ensures
        section_or_empty(r) == god_error_text(error_count, *error_patterns),
{
    let has_patterns = match error_patterns {
        Some(ps) => ps.len() > 0,
        None => false,
    };
    if error_count.is_none() && !has_patterns {
        return None;
    }
    let mut out = String::new();
    add_section_header(&mut out, "god object error handling (aggregated)");
    match error_count {
        Some(c) => {
            let mut v = String::new();
            push_decimal(&mut v, c as u128);
            push_str(&mut v, " across all functions");
            add_label_value(&mut out, "errors swallowed", v.as_str());
        },
        None => {},
    }
    match error_patterns {
        Some(ps) => {
            let n = crate::text::to_decimal(ps.len() as u128);
            add_label_value(&mut out, "unique patterns", n.as_str());
            push_pattern_lines(&mut out, ps);
        },
        None => {},
    }
    add_blank_line(&mut out);
    assert(out@ =~= god_error_text(error_count, *error_patterns));
    Some(out)
}

/// Appends an optional section.
fn push_section(out: &mut String, section: Option<String>)
    ensures
        final(out)@ == old(out)@ + section_or_empty(section),
{
    match section {
        Some(t) => push_str(out, t.as_str()),
        None => {
            assert(old(out)@ + Seq::<char>::empty() =~= old(out)@);
        },
    }
}

/// The aggregated sections of a god object, or nothing.
pub open spec fn god_sections_of(g: Option<GodObjectIndicators>) -> Seq<char> {
    match g {
        Some(g) => god_pattern_text(g),
        None => Seq::empty(),
    }
}

/// Appends the aggregated sections of a god object.
fn push_god_object_sections(out: &mut String, indicators: &Option<GodObjectIndicators>)
    ensures
        final(out)@ == old(out)@ + god_sections_of(*indicators),
{
    let ghost start = out@;
    match indicators {
        Some(g) => {
            if g.is_god_object {
                let e = match &g.aggregated_entropy {
                    Some(e) => format_god_object_entropy_section(e),
                    None => None,
                };
                push_section(out, e);
                push_section(
                    out,
                    format_god_object_error_handling_section(
                        g.aggregated_error_swallowing_count,
                        &g.aggregated_error_swallowing_patterns,
                    ),
                );
            }
        },
        None => {},
    }
    assert(out@ =~= start + god_sections_of(*indicators));
}

/// The item's own sections of the patterns page: entropy, pattern
/// analysis, detected pattern and language-specific data.
pub open spec fn item_pattern_sections(item: UnifiedDebtItem) -> Seq<char> {
    let entropy = match item.entropy_details {
        Some(e) => entropy_text(e),
        None => Seq::empty(),
    };
    let analysis = match item.pattern_analysis {
        Some(p) => pattern_analysis_text(p),
        None => Seq::empty(),
    };
    let detected = match item.detected_pattern {
        Some(d) => detected_pattern_text(d),
        None => Seq::empty(),
    };
    let language = match item.language_specific {
        Some(r) => language_text(r),
        None => Seq::empty(),
    };
    entropy + analysis + detected + language
}

/// Appends the item's own sections of the patterns page.
#[verifier::rlimit(40)]
fn push_item_pattern_sections(out: &mut String, item: &UnifiedDebtItem)
    ensures
        final(out)@ == old(out)@ + item_pattern_sections(*item),
{
    let ghost start = out@;
    let entropy = match &item.entropy_details {
        Some(e) => format_entropy_section(e),
        None => None,
    };
    push_section(out, entropy);
    let analysis = match &item.pattern_analysis {
        Some(p) => format_pattern_analysis_section(p),
        None => None,
    };
    push_section(out, analysis);
    let detected = match &item.detected_pattern {
        Some(d) => format_detected_pattern_section(d),
        None => None,
    };
    push_section(out, detected);
    let language = match &item.language_specific {
        Some(r) => format_language_specific_section(r),
        None => None,
    };
    push_section(out, language);
    assert(out@ =~= start + item_pattern_sections(*item));
}

/// Extract patterns page content as plain text.
pub fn extract_patterns_text(item: &UnifiedDebtItem, data_flow: &DataFlowGraph) -> (r: String)
    ensures
        r@ == patterns_text(*item, latest_info(data_flow.purity_entries(), item_function_id(*item))),
{
    let func_id = make_function_id(item);
    let ghost purity = latest_info(data_flow.purity_entries(), item_function_id(*item));
    let mut out = String::new();
    push_item_pattern_sections(&mut out, item);
    push_section(&mut out, format_purity_section(&func_id, data_flow));
    push_section(&mut out, format_error_handling_section(item.error_swallowing_count, &item.error_swallowing_patterns));
    push_god_object_sections(&mut out, &item.god_object_indicators);
    let ghost pure = match purity {
        Some(p) => purity_text(p),
        None => Seq::<char>::empty(),
    };
    assert(out@ =~= item_pattern_sections(*item) + pure + error_handling_text(
        item.error_swallowing_count,
        item.error_swallowing_patterns,
    ) + god_sections_of(item.god_object_indicators));
    assert(out@ =~= pattern_sections(*item, purity));
    if out.as_str().unicode_len() == 0 {
        let mut note = String::new();
        push_str(&mut note, "No pattern data available\n");
        return note;
    }
    out
}

// ----------------------------------------------------------------------------
// Data flow page
// ----------------------------------------------------------------------------

/// A detected mutation, aligned with the value column.
pub open spec fn mutation_line(m: String) -> Seq<char> {
    "                            "@ + m@ + "\n"@
}

/// The mutation analysis section.
pub open spec fn mutation_text(m: MutationInfo) -> Seq<char> {
    header_text("mutation analysis"@) + label_value_text("has mutations"@, if m.has_mutations { "yes"@ } else { "no"@ })
        + (if m.detected_mutations@.len() > 0 {
        "\n"@ + header_text("detected mutations (best-effort)"@) + concat_map(
            m.detected_mutations@,
            |x: String| mutation_line(x),
        )
    } else {
        Seq::empty()
    }) + "\n"@
}

/// An I/O operation line.
pub open spec fn io_line(op: IoOperation) -> Seq<char> {
    "  "@ + op.operation_type@ + " at line "@ + decimal(op.line as nat) + " (variables: "@ + join(
        views(op.variables@),
        ", "@,
    ) + ")\n"@
}

/// The I/O operations section, when there are operations.
pub open spec fn io_text(ops: Seq<IoOperation>) -> Seq<char> {
    if ops.len() > 0 {
        header_text("i/o operations"@) + concat_map(ops, |op: IoOperation| io_line(op)) + "\n"@
    } else {
        Seq::empty()
    }
}

/// The sections of the data flow page, given the mutation information and
/// I/O operations of the item's function.
pub open spec fn data_flow_sections(mutation: Option<MutationInfo>, io: Option<Vec<IoOperation>>) -> Seq<char> {
    let m = match mutation {
        Some(mi) => mutation_text(mi),
        None => Seq::empty(),
    };
    let i = match io {
        Some(ops) => io_text(ops@),
        None => Seq::empty(),
    };
    m + i
}

/// Text of the data flow page, or a note that there is no data flow data.
pub open spec fn data_flow_text(mutation: Option<MutationInfo>, io: Option<Vec<IoOperation>>) -> Seq<char> {
    let body = data_flow_sections(mutation, io);
    if body.len() == 0 {
        "No data flow analysis data available for this function.\n"@
    } else {
        body
    }
}

/// Appends the mutation analysis section.
fn push_mutation_section(out: &mut String, m: &MutationInfo)
    ensures
        final(out)@ == old(out)@ + mutation_text(*m),
{
    let ghost start = out@;
    add_section_header(out, "mutation analysis");
    add_label_value(
        out,
        "has mutations",
        if m.has_mutations {
            "yes"
        } else {
            "no"
        },
    );
    if m.detected_mutations.len() > 0 {
        add_blank_line(out);
        add_section_header(out, "detected mutations (best-effort)");
        let ghost head = out@;
        let mut i: usize = 0;
        while i < m.detected_mutations.len()
            invariant
                i <= m.detected_mutations.len(),
                out@ == head + concat_map(m.detected_mutations@.take(i as int), |x: String| mutation_line(x)),
            decreases m.detected_mutations.len() - i,
        {
            push_str(out, "                            ");
            push_str(out, m.detected_mutations[i].as_str());
            push_str(out, "\n");
            proof {
                assert(m.detected_mutations@.take(i + 1).drop_last() =~= m.detected_mutations@.take(i as int));
                assert(m.detected_mutations@.take(i + 1).last() == m.detected_mutations@[i as int]);
            }
            assert(out@ =~= head + concat_map(m.detected_mutations@.take(i + 1), |x: String| mutation_line(x)));
            i = i + 1;
        }
        assert(m.detected_mutations@.take(m.detected_mutations@.len() as int) =~= m.detected_mutations@);
    }
    add_blank_line(out);
    assert(out@ =~= start + mutation_text(*m));
}

/// Appends an I/O operation line.
fn push_io_line(out: &mut String, op: &IoOperation)
    ensures
        final(out)@ == old(out)@ + io_line(*op),
{
    push_str(out, "  ");
    push_str(out, op.operation_type.as_str());
    push_str(out, " at line ");
    push_decimal(out, op.line as u128);
    push_str(out, " (variables: ");
    push_joined(out, &op.variables, ", ");
    push_str(out, ")\n");
    assert(out@ =~= old(out)@ + io_line(*op));
}

/// Appends the I/O operations section.
fn push_io_section(out: &mut String, ops: &Vec<IoOperation>)
    ensures
        final(out)@ == old(out)@ + io_text(ops@),
{
    let ghost start = out@;
    if ops.len() == 0 {
        assert(out@ =~= start + io_text(ops@));
        return;
    }
    add_section_header(out, "i/o operations");
    let ghost head = out@;
    let mut i: usize = 0;
    while i < ops.len()
        invariant
            i <= ops.len(),
            out@ == head + concat_map(ops@.take(i as int), |op: IoOperation| io_line(op)),
        decreases ops.len() - i,
    {
        push_io_line(out, &ops[i]);
        proof {
            assert(ops@.take(i + 1).drop_last() =~= ops@.take(i as int));
            assert(ops@.take(i + 1).last() == ops@[i as int]);
        }
        assert(out@ =~= head + concat_map(ops@.take(i + 1), |op: IoOperation| io_line(op)));
        i = i + 1;
    }
    assert(ops@.take(ops@.len() as int) =~= ops@);
    add_blank_line(out);
    assert(out@ =~= start + io_text(ops@));
}

/// Extract data flow page content as plain text.
pub fn extract_data_flow_text(item: &UnifiedDebtItem, data_flow: &DataFlowGraph) -> (r: String)
    ensures
        r@ == data_flow_text(
            latest_info(data_flow.mutation_entries(), item_function_id(*item)),
            latest_info(data_flow.io_entries(), item_function_id(*item)),
        ),
{
    let mut out = String::new();
    let id = make_function_id(item);
    match data_flow.get_mutation_info(&id) {
        Some(m) => push_mutation_section(&mut out, m),
        None => {},
    }
    match data_flow.get_io_operations(&id) {
        Some(ops) => push_io_section(&mut out, ops),
        None => {},
    }
    assert(out@ =~= data_flow_sections(
        latest_info(data_flow.mutation_entries(), item_function_id(*item)),
        latest_info(data_flow.io_entries(), item_function_id(*item)),
    ));
    if out.as_str().unicode_len() == 0 {
        let mut note = String::new();
        push_str(&mut note, "No data flow analysis data available for this function.\n");
        return note;
    }
    out
}

// ----------------------------------------------------------------------------
// Responsibilities page
// ----------------------------------------------------------------------------

/// The method count of the first entry for a responsibility, or 0.
pub open spec fn method_count(counts: Seq<ResponsibilityCount>, name: Seq<char>) -> nat
    decreases counts.len(),
{
    if counts.len() == 0 {
        0
    } else if counts[0].responsibility@ == name {
        counts[0].methods as nat
    } else {
        method_count(counts.subrange(1, counts.len() as int), name)
    }
}

/// The method count text of a responsibility (empty for none).
pub open spec fn count_text(n: nat) -> Seq<char> {
    if n > 0 {
        decimal(n) + " methods"@
    } else {
        Seq::empty()
    }
}

/// A responsibility line: its lowercase name and method count.
pub open spec fn responsibility_line(counts: Seq<ResponsibilityCount>, r: String) -> Seq<char> {
    label_value_text(lowercased(r@), count_text(method_count(counts, r@)))
}

/// The god object note.
pub open spec fn god_note() -> Seq<char> {
    "\n"@ + "Note: God objects are structural issues (too many\n"@
        + "responsibilities). Focus on splitting by responsibility.\n"@
}

/// The main section: the responsibilities of a god object when it has any,
/// otherwise the item's responsibility category.
pub open spec fn responsibility_main(item: UnifiedDebtItem) -> Seq<char> {
    match item.god_object_indicators {
        Some(g) if g.responsibilities@.len() > 0 => header_text("responsibilities"@) + concat_map(
            g.responsibilities@,
            |r: String| responsibility_line(g.responsibility_method_counts@, r),
        ),
        _ => header_text("responsibility"@) + label_value_text(
            "category"@,
            lowercased(
                match item.responsibility_category {
                    Some(c) => c@,
                    None => "unclassified"@,
                },
            ),
        ),
    }
}

/// Text of the responsibilities page.
pub open spec fn responsibilities_text(item: UnifiedDebtItem) -> Seq<char> {
    let note = match item.god_object_indicators {
        Some(g) if g.is_god_object => god_note(),
        _ => Seq::empty(),
    };
    responsibility_main(item) + note
}

/// Appends the lowercase of a text.
fn push_lowered(out: &mut String, s: &str)
    ensures
        final(out)@ == old(out)@ + lowercased(s@),
{
    let l = to_lowercase(s);
    push_str(out, l.as_str());
}

/// The method count of the first entry for a responsibility, or 0.
fn find_method_count(counts: &Vec<ResponsibilityCount>, name: &str) -> (r: usize)
    ensures
        r == method_count(counts@, name@),
{
    let mut i: usize = 0;
    assert(counts@.subrange(0, counts@.len() as int) =~= counts@);
    while i < counts.len()
        invariant
            i <= counts.len(),
            method_count(counts@, name@) == method_count(counts@.subrange(i as int, counts@.len() as int), name@),
        decreases counts.len() - i,
    {
        let ghost rest = counts@.subrange(i as int, counts@.len() as int);
        assert(rest.subrange(1, rest.len() as int) =~= counts@.subrange(i + 1, counts@.len() as int));
        assert(rest[0] == counts@[i as int]);
        if str_equal(counts[i].responsibility.as_str(), name) {
            return counts[i].methods;
        }
        i = i + 1;
    }
    0
}

/// Appends a responsibility line.
fn push_responsibility_line(out: &mut String, counts: &Vec<ResponsibilityCount>, r: &String)
    ensures
        final(out)@ == old(out)@ + responsibility_line(counts@, *r),
{
    let mut label = String::new();
    push_lowered(&mut label, r.as_str());
    let n = find_method_count(counts, r.as_str());
    let mut value = String::new();
    if n > 0 {
        push_decimal(&mut value, n as u128);
        push_str(&mut value, " methods");
    }
    assert(value@ =~= count_text(n as nat));
    add_label_value(out, label.as_str(), value.as_str());
}

/// Appends the responsibilities of a god object.
fn push_responsibility_lines(out: &mut String, g: &GodObjectIndicators)
    ensures
        final(out)@ == old(out)@ + concat_map(
            g.responsibilities@,
            |r: String| responsibility_line(g.responsibility_method_counts@, r),
        ),
{
    let ghost start = out@;
    let ghost f = |r: String| responsibility_line(g.responsibility_method_counts@, r);
    let mut i: usize = 0;
    while i < g.responsibilities.len()
        invariant
            i <= g.responsibilities.len(),
            f == (|r: String| responsibility_line(g.responsibility_method_counts@, r)),
            out@ == start + concat_map(g.responsibilities@.take(i as int), f),
        decreases g.responsibilities.len() - i,
    {
        push_responsibility_line(out, &g.responsibility_method_counts, &g.responsibilities[i]);
        proof {
            assert(g.responsibilities@.take(i + 1).drop_last() =~= g.responsibilities@.take(i as int));
            assert(g.responsibilities@.take(i + 1).last() == g.responsibilities@[i as int]);
        }
        assert(out@ =~= start + concat_map(g.responsibilities@.take(i + 1), f));
        i = i + 1;
    }
    assert(g.responsibilities@.take(g.responsibilities@.len() as int) =~= g.responsibilities@);
}

/// Extract responsibilities page content as plain text.
pub fn extract_responsibilities_text(item: &UnifiedDebtItem) -> (r: String)
    ensures
        r@ == responsibilities_text(*item),
{
    let mut out = String::new();
    let shown = match &item.god_object_indicators {
        Some(g) => g.responsibilities.len() > 0,
        None => false,
    };
    if shown {
        match &item.god_object_indicators {
            Some(g) => {
                add_section_header(&mut out, "responsibilities");
                push_responsibility_lines(&mut out, g);
            },
            None => {},
        }
    } else {
        add_section_header(&mut out, "responsibility");
        let mut category = String::new();
        match &item.responsibility_category {
            Some(c) => push_lowered(&mut category, c.as_str()),
            None => push_lowered(&mut category, "unclassified"),
        }
        add_label_value(&mut out, "category", category.as_str());
    }
    assert(out@ =~= responsibility_main(*item));
    match &item.god_object_indicators {
        Some(g) => {
            if g.is_god_object {
                push_str(&mut out, "\n");
                push_str(&mut out, "Note: God objects are structural issues (too many\n");
                push_str(&mut out, "responsibilities). Focus on splitting by responsibility.\n");
            }
        },
        None => {},
    }
    assert(out@ =~= responsibilities_text(*item));
    out
}

// ----------------------------------------------------------------------------
// Score breakdown page
// ----------------------------------------------------------------------------

/// The line that says which of several items at a location the breakdown
/// shows, with a blank line after it; nothing for a lone item.
pub open spec fn item_indicator_text(current_index: nat, total_items: nat, debt_type: DebtType) -> Seq<char> {
    if total_items > 1 {
        "viewing item "@ + decimal(current_index + 1) + " of "@ + decimal(total_items) + ": "@ + debt_type_name(debt_type)
            + "\n\n"@
    } else {
        Seq::empty()
    }
}

/// Build the item indicator shown when several items share a location:
/// "viewing item X of N: <debt type>".
pub fn build_item_indicator_section(current_index: usize, total_items: usize, debt_type: &DebtType) -> (r: String)
    ensures
        r@ == item_indicator_text(current_index as nat, total_items as nat, *debt_type),
{
    let mut out = String::new();
    if total_items > 1 {
        push_str(&mut out, "viewing item ");
        push_decimal(&mut out, current_index as u128 + 1);
        push_str(&mut out, " of ");
        push_decimal(&mut out, total_items as u128);
        push_str(&mut out, ": ");
        let name = format_debt_type_name(debt_type);
        push_str(&mut out, name.as_str());
        push_str(&mut out, "\n\n");
    }
    out
}

/// The final score section of the score breakdown page: the score with one
/// decimal and its severity.
pub open spec fn final_score_text(item: UnifiedDebtItem) -> Seq<char> {
    header_text("final score"@) + label_value_text(
        "total"@,
        one_decimal(item.final_score as nat) + " ["@ + score_severity(item.final_score as int) + "]"@,
    ) + "\n"@
}

/// Build the final score section of the score breakdown page as plain text.
pub fn build_final_score_section(item: &UnifiedDebtItem) -> (r: String)
    ensures
        r@ == final_score_text(*item),
{
    let mut out = String::new();
    add_section_header(&mut out, "final score");
    let score = item.final_score;
    let mut v = String::new();
    push_one_decimal(&mut v, score as u128);
    push_str(&mut v, " [");
    let sev = if score >= 10000 {
        "critical"
    } else if score >= 5000 {
        "high"
    } else if score >= 1000 {
        "medium"
    } else {
        "low"
    };
    push_str(&mut v, sev);
    push_str(&mut v, "]");
    assert(v@ =~= one_decimal(item.final_score as nat) + " ["@ + score_severity(item.final_score as int) + "]"@);
    add_label_value(&mut out, "total", v.as_str());
    add_blank_line(&mut out);
    assert(out@ =~= final_score_text(*item));
    out
}

/// Cognitive complexity after entropy adjustment: from the item's own entropy
/// data, else from a god object's aggregated entropy.
pub open spec fn entropy_adjusted_cognitive(item: UnifiedDebtItem) -> Option<u32> {
    match item.entropy_details {
        Some(e) => Some(e.adjusted_cognitive),
        None => match item.god_object_indicators {
            Some(g) => match g.aggregated_entropy {
                Some(e) => Some(e.adjusted_cognitive),
                None => None,
            },
            None => None,
        },
    }
}

/// The cognitive complexity input: "original → adjusted (entropy-adjusted)"
/// where entropy changed it, else the plain value.
pub open spec fn cognitive_input(item: UnifiedDebtItem) -> Seq<char> {
    match entropy_adjusted_cognitive(item) {
        Some(a) => if a != item.cognitive_complexity {
            decimal(item.cognitive_complexity as nat) + " → "@ + decimal(a as nat) + " (entropy-adjusted)"@
        } else {
            decimal(item.cognitive_complexity as nat)
        },
        None => decimal(item.cognitive_complexity as nat),
    }
}

/// The coverage inputs: direct coverage where coverage data exists, and
/// transitive coverage where it differs from direct coverage by more than one
/// percentage point.
pub open spec fn coverage_inputs(item: UnifiedDebtItem) -> Seq<char> {
    match item.coverage {
        Some(d) => label_value_text("direct coverage"@, one_decimal(d as nat) + "%"@) + match item.transitive_coverage {
            Some(t) => if t > d + 100 || d > t + 100 {
                label_value_text("transitive coverage"@, one_decimal(t as nat) + "%"@)
            } else {
                Seq::empty()
            },
            None => Seq::empty(),
        },
        None => Seq::empty(),
    }
}

/// The raw inputs section of the score breakdown page: the base metrics the
/// score is computed from.
pub open spec fn raw_inputs_text(item: UnifiedDebtItem) -> Seq<char> {
    header_text("raw inputs"@) + label_value_text("cyclomatic"@, decimal(item.cyclomatic_complexity as nat))
        + label_value_text("cognitive"@, cognitive_input(item)) + label_value_text(
        "nesting"@,
        decimal(item.nesting_depth as nat),
    ) + label_value_text("loc"@, decimal(item.function_length as nat)) + label_value_text(
        "upstream deps"@,
        decimal(item.upstream_dependencies as nat),
    ) + label_value_text("downstream deps"@, decimal(item.downstream_dependencies as nat)) + coverage_inputs(item)
        + "\n"@
}

fn cognitive_input_value(item: &UnifiedDebtItem) -> (r: String)
    ensures
        r@ == cognitive_input(*item),
{
    let adjusted: Option<u32> = match &item.entropy_details {
        Some(e) => Some(e.adjusted_cognitive),
        None => match &item.god_object_indicators {
            Some(g) => match &g.aggregated_entropy {
                Some(e) => Some(e.adjusted_cognitive),
                None => None,
            },
            None => None,
        },
    };
    let mut v = String::new();
    push_decimal(&mut v, item.cognitive_complexity as u128);
    match adjusted {
        Some(a) => {
            if a != item.cognitive_complexity {
                push_str(&mut v, " → ");
                push_decimal(&mut v, a as u128);
                push_str(&mut v, " (entropy-adjusted)");
            }
        },
        None => {},
    }
    assert(v@ =~= cognitive_input(*item));
    v
}

fn add_coverage_inputs(out: &mut String, item: &UnifiedDebtItem)
    ensures
        final(out)@ == old(out)@ + coverage_inputs(*item),
{
    match item.coverage {
        Some(d) => {
            let mut v = String::new();
            push_one_decimal(&mut v, d as u128);
            push_str(&mut v, "%");
            add_label_value(out, "direct coverage", v.as_str());
            let ghost mid = out@;
            match item.transitive_coverage {
                Some(t) => {
                    if (t as u64) > (d as u64) + 100 || (d as u64) > (t as u64) + 100 {
                        let mut w = String::new();
                        push_one_decimal(&mut w, t as u128);
                        push_str(&mut w, "%");
                        add_label_value(out, "transitive coverage", w.as_str());
                    }
                },
                None => {},
            }
            assert(out@ =~= old(out)@ + coverage_inputs(*item));
        },
        None => {
            assert(out@ =~= old(out)@ + coverage_inputs(*item));
        },
    }
}

/// Build the raw inputs section of the score breakdown page as plain text.
pub fn build_raw_inputs_section(item: &UnifiedDebtItem) -> (r: String)
    ensures
        r@ == raw_inputs_text(*item),
{
    let mut out = String::new();
    add_section_header(&mut out, "raw inputs");
    let cyc = crate::text::to_decimal(item.cyclomatic_complexity as u128);
    add_label_value(&mut out, "cyclomatic", cyc.as_str());
    let cog = cognitive_input_value(item);
    add_label_value(&mut out, "cognitive", cog.as_str());
    let nesting = crate::text::to_decimal(item.nesting_depth as u128);
    add_label_value(&mut out, "nesting", nesting.as_str());
    let loc = crate::text::to_decimal(item.function_length as u128);
    add_label_value(&mut out, "loc", loc.as_str());
    let up = crate::text::to_decimal(item.upstream_dependencies as u128);
    add_label_value(&mut out, "upstream deps", up.as_str());
    let down = crate::text::to_decimal(item.downstream_dependencies as u128);
    add_label_value(&mut out, "downstream deps", down.as_str());
    add_coverage_inputs(&mut out, item);
    add_blank_line(&mut out);
    assert(out@ =~= raw_inputs_text(*item));
    out
}

/// The god object score of an item, in hundredths: that of its debt type, or
/// that of its indicators where they mark a god object.
pub open spec fn god_object_score_of(item: UnifiedDebtItem) -> Option<u64> {
    match item.debt_type {
        DebtType::GodObject { god_object_score, .. } => Some(god_object_score),
        _ => match item.god_object_indicators {
            Some(g) => if g.is_god_object {
                Some(g.god_object_score)
            } else {
                None
            },
            None => None,
        },
    }
}

/// Whether the item is scored as a god object.
pub open spec fn is_god_object(item: UnifiedDebtItem) -> bool {
    god_object_score_of(item) is Some
}

/// The god object multiplier `3.0 + score/50` in hundredths, for a score in
/// hundredths, rounding halves to even.
pub open spec fn god_multiplier(score: nat) -> nat {
    div_round_even(15000 + score, 50)
}

/// Name of a detection type.
pub open spec fn detection_type_name(d: DetectionType) -> Seq<char> {
    match d {
        DetectionType::GodClass => "GodClass"@,
        DetectionType::GodFile => "GodFile"@,
        DetectionType::GodModule => "GodModule"@,
    }
}

/// The weighted method count line, where there is one.
pub open spec fn weighted_methods_line(g: GodObjectIndicators) -> Seq<char> {
    match g.weighted_method_count {
        Some(w) => label_value_text("weighted methods"@, one_decimal(w as nat) + " (pure-adjusted)"@),
        None => Seq::empty(),
    }
}

/// The trait method line, where there is a summary.
pub open spec fn trait_methods_line(g: GodObjectIndicators) -> Seq<char> {
    match g.trait_method_summary {
        Some(t) => label_value_text(
            "trait methods"@,
            decimal(t.mandated_count as nat) + " mandated, "@ + decimal(t.extractable_count as nat) + " extractable"@,
        ),
        None => Seq::empty(),
    }
}

/// The domains line, where the methods serve any domain.
pub open spec fn domains_line(g: GodObjectIndicators) -> Seq<char> {
    if g.domain_count > 0 {
        label_value_text(
            "domains"@,
            decimal(g.domain_count as nat) + " (diversity: "@ + two_decimals(g.domain_diversity as nat) + ")"@,
        )
    } else {
        Seq::empty()
    }
}

/// The complexity lines, where there are complexity metrics.
pub open spec fn god_complexity_lines(g: GodObjectIndicators) -> Seq<char> {
    match g.complexity_metrics {
        Some(m) => label_value_text("avg complexity"@, one_decimal(m.avg_cyclomatic as nat)) + label_value_text(
            "max complexity"@,
            decimal(m.max_cyclomatic as nat),
        ),
        None => Seq::empty(),
    }
}

/// The detailed indicator lines of the god object impact section.
pub open spec fn god_indicator_lines(g: GodObjectIndicators) -> Seq<char> {
    label_value_text("methods"@, decimal(g.method_count as nat)) + label_value_text(
        "fields"@,
        decimal(g.field_count as nat),
    ) + label_value_text("responsibilities"@, decimal(g.responsibility_count as nat)) + weighted_methods_line(g)
        + trait_methods_line(g) + domains_line(g) + god_complexity_lines(g)
}

/// The god object impact section of the score breakdown page; empty for an
/// item that is no god object.
pub open spec fn god_object_impact_text(item: UnifiedDebtItem) -> Seq<char> {
    match god_object_score_of(item) {
        Some(score) => header_text("god object impact (MAJOR)"@) + match item.god_object_indicators {
            Some(g) => label_value_text("detection type"@, detection_type_name(g.detection_type)),
            None => Seq::empty(),
        } + label_value_text("god object score"@, one_decimal(score as nat)) + label_value_text(
            "multiplier"@,
            two_decimals(god_multiplier(score as nat)) + "x (3.0 + score/50)"@,
        ) + match item.god_object_indicators {
            Some(g) => god_indicator_lines(g),
            None => Seq::empty(),
        } + "\n"@,
        None => Seq::empty(),
    }
}

fn add_weighted_methods_line(out: &mut String, g: &GodObjectIndicators)
    ensures
        final(out)@ == old(out)@ + weighted_methods_line(*g),
{
    match g.weighted_method_count {
        Some(w) => {
            let mut v = String::new();
            push_one_decimal(&mut v, w as u128);
            push_str(&mut v, " (pure-adjusted)");
            add_label_value(out, "weighted methods", v.as_str());
        },
        None => {
            assert(out@ =~= old(out)@ + weighted_methods_line(*g));
        },
    }
}

fn add_trait_methods_line(out: &mut String, g: &GodObjectIndicators)
    ensures
        final(out)@ == old(out)@ + trait_methods_line(*g),
{
    match g.trait_method_summary {
        Some(t) => {
            let mut v = String::new();
            push_decimal(&mut v, t.mandated_count as u128);
            push_str(&mut v, " mandated, ");
            push_decimal(&mut v, t.extractable_count as u128);
            push_str(&mut v, " extractable");
            add_label_value(out, "trait methods", v.as_str());
        },
        None => {
            assert(out@ =~= old(out)@ + trait_methods_line(*g));
        },
    }
}

fn add_domains_line(out: &mut String, g: &GodObjectIndicators)
    ensures
        final(out)@ == old(out)@ + domains_line(*g),
{
    if g.domain_count > 0 {
        let mut v = String::new();
        push_decimal(&mut v, g.domain_count as u128);
        push_str(&mut v, " (diversity: ");
        push_two_decimals(&mut v, g.domain_diversity as u128);
        push_str(&mut v, ")");
        add_label_value(out, "domains", v.as_str());
    } else {
        assert(out@ =~= old(out)@ + domains_line(*g));
    }
}

fn add_god_complexity_lines(out: &mut String, g: &GodObjectIndicators)
    ensures
        final(out)@ == old(out)@ + god_complexity_lines(*g),
{
    match g.complexity_metrics {
        Some(m) => {
            let mut v = String::new();
            push_one_decimal(&mut v, m.avg_cyclomatic as u128);
            add_label_value(out, "avg complexity", v.as_str());
            let mx = crate::text::to_decimal(m.max_cyclomatic as u128);
            add_label_value(out, "max complexity", mx.as_str());
            assert(out@ =~= old(out)@ + god_complexity_lines(*g));
        },
        None => {
            assert(out@ =~= old(out)@ + god_complexity_lines(*g));
        },
    }
}

fn add_god_indicator_lines(out: &mut String, g: &GodObjectIndicators)
    ensures
        final(out)@ == old(out)@ + god_indicator_lines(*g),
{
    let methods = crate::text::to_decimal(g.method_count as u128);
    add_label_value(out, "methods", methods.as_str());
    let fields = crate::text::to_decimal(g.field_count as u128);
    add_label_value(out, "fields", fields.as_str());
    let resp = crate::text::to_decimal(g.responsibility_count as u128);
    add_label_value(out, "responsibilities", resp.as_str());
    add_weighted_methods_line(out, g);
    add_trait_methods_line(out, g);
    add_domains_line(out, g);
    add_god_complexity_lines(out, g);
    assert(out@ =~= old(out)@ + god_indicator_lines(*g));
}

/// Build the god object impact section of the score breakdown page as plain
/// text; empty for an item that is no god object.
pub fn build_god_object_impact_section(item: &UnifiedDebtItem) -> (r: String)
    ensures
        r@ == god_object_impact_text(*item),
        r@.len() == 0 <==> !is_god_object(*item),
{
    proof {
        reveal_strlit("god object impact (MAJOR)");
    }
    let score: Option<u64> = match item.debt_type {
        DebtType::GodObject { god_object_score, .. } => Some(god_object_score),
        _ => match &item.god_object_indicators {
            Some(g) => if g.is_god_object {
                Some(g.god_object_score)
            } else {
                None
            },
            None => None,
        },
    };
    let mut out = String::new();
    match score {
        Some(s) => {
            add_section_header(&mut out, "god object impact (MAJOR)");
            let ghost h = out@;
            match &item.god_object_indicators {
                Some(g) => {
                    let name = match g.detection_type {
                        DetectionType::GodClass => "GodClass",
                        DetectionType::GodFile => "GodFile",
                        DetectionType::GodModule => "GodModule",
                    };
                    add_label_value(&mut out, "detection type", name);
                },
                None => {},
            }
            let mut sv = String::new();
            push_one_decimal(&mut sv, s as u128);
            add_label_value(&mut out, "god object score", sv.as_str());
            let mut mv = String::new();
            let m: u128 = crate::text::round_div_even(15000 + s as u128, 50);
            push_two_decimals(&mut mv, m);
            push_str(&mut mv, "x (3.0 + score/50)");
            add_label_value(&mut out, "multiplier", mv.as_str());
            match &item.god_object_indicators {
                Some(g) => add_god_indicator_lines(&mut out, g),
                None => {},
            }
            add_blank_line(&mut out);
            assert(out@ =~= god_object_impact_text(*item));
            assert(out@.len() >= h.len());
        },
        None => {
            assert(out@ =~= god_object_impact_text(*item));
        },
    }
    out
}

// ----------------------------------------------------------------------------
// Context page
// ----------------------------------------------------------------------------

/// Number of lines of a range, both ends included (one for an inverted
/// range).
pub open spec fn line_count(r: FileRange) -> nat {
    (if r.end_line >= r.start_line { (r.end_line - r.start_line) as nat } else { 0 }) + 1
}

/// The header line of a context suggestion: its size and confidence.
pub open spec fn context_header_text(c: ContextSuggestion) -> Seq<char> {
    "context to read"@ + crate::page_text::spaces(20) + decimal(c.total_lines as nat) + " lines · "@ + decimal(
        confidence_percent(c),
    ) + "% confidence"@ + "\n"@ + "\n"@
}

/// The primary scope section.
pub open spec fn primary_section_text(c: ContextSuggestion) -> Seq<char> {
    header_text("primary"@) + label_value_text("range"@, range_text(c.primary)) + match c.primary.symbol {
        Some(s) => label_value_text("symbol"@, s@),
        None => Seq::empty(),
    } + label_value_text("lines"@, decimal(line_count(c.primary))) + "\n"@
}

/// The lines of one related range: the range under its relationship, and
/// the reason aligned with the value column when there is one.
pub open spec fn related_line(rc: RelatedContext) -> Seq<char> {
    label_value_text(relationship_label(rc.relationship), range_text(rc.range)) + if rc.reason@.len() > 0 {
        crate::page_text::spaces(28) + rc.reason@ + "\n"@
    } else {
        Seq::<char>::empty()
    }
}

/// The related context section, when there are related ranges.
pub open spec fn related_section_text(rs: Seq<RelatedContext>) -> Seq<char> {
    if rs.len() == 0 {
        Seq::empty()
    } else {
        header_text("related"@) + concat_map(rs, |rc: RelatedContext| related_line(rc)) + "\n"@
    }
}

/// The copy instructions of the Context page.
pub open spec fn copy_instructions_text() -> Seq<char> {
    header_text("actions"@) + "  c - copy all context ranges\n"@ + "  p - copy primary range only\n"@
}

/// Text of the Context page: the suggested code context, or a note that the
/// analysis produced none.
pub open spec fn context_page_text(item: UnifiedDebtItem) -> Seq<char> {
    match item.context_suggestion {
        Some(c) => context_header_text(c) + primary_section_text(c) + related_section_text(c.related@)
            + copy_instructions_text(),
        None => "context to read\n"@ + "\n"@ + "Context information not available.\n"@
            + "Re-run analysis to generate context suggestions.\n"@,
    }
}

/// Appends the header line of a context suggestion.
fn build_context_header(out: &mut String, c: &ContextSuggestion)
    ensures
        final(out)@ == old(out)@ + context_header_text(*c),
{
    push_str(out, "context to read");
    push_str(out, "                    ");
    push_decimal(out, c.total_lines as u128);
    push_str(out, " lines · ");
    push_decimal(out, (c.completeness_confidence / 10) as u128);
    push_str(out, "% confidence");
    push_str(out, "\n");
    push_str(out, "\n");
    proof {
        reveal_strlit("                    ");
        assert("                    "@ =~= crate::page_text::spaces(20));
    }
    assert(out@ =~= old(out)@ + context_header_text(*c));
}

/// Appends the primary scope section.
fn build_primary_section(out: &mut String, c: &ContextSuggestion)
    ensures
        final(out)@ == old(out)@ + primary_section_text(*c),
{
    let ghost start = out@;
    add_section_header(out, "primary");
    let mut range = String::new();
    push_range(&mut range, &c.primary);
    add_label_value(out, "range", range.as_str());
    match &c.primary.symbol {
        Some(s) => add_label_value(out, "symbol", s.as_str()),
        None => {},
    }
    let n: u128 = if c.primary.end_line >= c.primary.start_line {
        (c.primary.end_line - c.primary.start_line) as u128
    } else {
        0
    } + 1;
    let lines = crate::text::to_decimal(n);
    add_label_value(out, "lines", lines.as_str());
    add_blank_line(out);
    assert(out@ =~= start + primary_section_text(*c));
}

/// Appends the lines of one related range.
fn push_related_line(out: &mut String, rc: &RelatedContext)
    ensures
        final(out)@ == old(out)@ + related_line(*rc),
{
    let ghost start = out@;
    let mut range = String::new();
    push_range(&mut range, &rc.range);
    add_label_value(out, format_relationship(&rc.relationship), range.as_str());
    if rc.reason.as_str().unicode_len() > 0 {
        push_str(out, "                            ");
        push_str(out, rc.reason.as_str());
        push_str(out, "\n");
        proof {
            reveal_strlit("                            ");
            assert("                            "@ =~= crate::page_text::spaces(28));
        }
    }
    assert(out@ =~= start + related_line(*rc));
}

/// Appends the related context section.
fn build_related_section(out: &mut String, rs: &Vec<RelatedContext>)
    ensures
        final(out)@ == old(out)@ + related_section_text(rs@),
{
    let ghost start = out@;
    if rs.len() == 0 {
        assert(out@ =~= start + related_section_text(rs@));
        return;
    }
    add_section_header(out, "related");
    let ghost head = out@;
    let mut i: usize = 0;
    while i < rs.len()
        invariant
            i <= rs.len(),
            out@ == head + concat_map(rs@.take(i as int), |rc: RelatedContext| related_line(rc)),
        decreases rs.len() - i,
    {
        push_related_line(out, &rs[i]);
        proof {
            assert(rs@.take(i + 1).drop_last() =~= rs@.take(i as int));
            assert(rs@.take(i + 1).last() == rs@[i as int]);
        }
        assert(out@ =~= head + concat_map(rs@.take(i + 1), |rc: RelatedContext| related_line(rc)));
        i = i + 1;
    }
    assert(rs@.take(rs@.len() as int) =~= rs@);
    add_blank_line(out);
    assert(out@ =~= start + related_section_text(rs@));
}

/// Appends the copy instructions.
fn build_copy_instructions(out: &mut String)
    ensures
        final(out)@ == old(out)@ + copy_instructions_text(),
{
    add_section_header(out, "actions");
    push_str(out, "  c - copy all context ranges\n");
    push_str(out, "  p - copy primary range only\n");
    assert(out@ =~= old(out)@ + copy_instructions_text());
}

/// Extract the Context page content as plain text.
pub fn extract_context_text(item: &UnifiedDebtItem) -> (r: String)
    ensures
        r@ == context_page_text(*item),
{
    let mut out = String::new();
    match &item.context_suggestion {
        Some(c) => {
            build_context_header(&mut out, c);
            build_primary_section(&mut out, c);
            build_related_section(&mut out, &c.related);
            build_copy_instructions(&mut out);
        },
        None => {
            push_str(&mut out, "context to read\n");
            push_str(&mut out, "\n");
            push_str(&mut out, "Context information not available.\n");
            push_str(&mut out, "Re-run analysis to generate context suggestions.\n");
        },
    }
    assert(out@ =~= context_page_text(*item));
    out
}

/// A score factor line: the factor (hundredths) with two decimals and how it
/// is computed.
pub open spec fn factor_line(label: Seq<char>, v: nat, formula: Seq<char>) -> Seq<char> {
    label_value_text(label, two_decimals(v) + "  ("@ + formula + ")"@)
}

/// The bonus (thousandths) a purity level gives the complexity metrics, a
/// confidence above 80% giving the larger bonus; none for an unknown level.
pub open spec fn purity_bonus(item: UnifiedDebtItem) -> Option<nat> {
    match item.purity_level {
        Some(l) => {
            let high = match item.purity_confidence {
                Some(c) => c > 800,
                None => false,
            };
            if l@ == "StrictlyPure"@ {
                Some(if high { 700nat } else { 800nat })
            } else if l@ == "LocallyPure"@ {
                Some(if high { 750nat } else { 850nat })
            } else if l@ == "ReadOnly"@ {
                Some(if high { 900nat } else { 950nat })
            } else if l@ == "Impure"@ {
                Some(1000nat)
            } else {
                None
            }
        },
        None => None,
    }
}

/// How the complexity factor is computed from the metrics (purity-reduced,
/// truncating, where a purity bonus applies).
pub open spec fn complexity_formula(item: UnifiedDebtItem) -> Seq<char> {
    let cyc = item.cyclomatic_complexity as nat;
    let cog = match item.entropy_details {
        Some(e) => e.adjusted_cognitive as nat,
        None => item.cognitive_complexity as nat,
    };
    let god = if is_god_object(item) { " × god"@ } else { Seq::<char>::empty() };
    let plain = "("@ + decimal(cyc) + "×0.4 + "@ + decimal(cog) + "×0.6) / 2"@ + god;
    match purity_bonus(item) {
        Some(b) => if b != 1000 {
            "("@ + decimal(cyc * b / 1000) + "×0.4 + "@ + decimal(cog * b / 1000) + "×0.6) / 2"@ + god + " [purity ×"@
                + two_decimals(b / 10) + "]"@
        } else {
            plain
        },
        None => plain,
    }
}

/// The score factors section of the score breakdown page.
pub open spec fn score_factors_text(item: UnifiedDebtItem) -> Seq<char> {
    header_text("score factors (0-10 scale)"@) + factor_line(
        "complexity"@,
        item.complexity_factor as nat,
        complexity_formula(item),
    ) + factor_line("coverage gap"@, item.coverage_factor as nat, "(1.0 - coverage%) * 10"@) + factor_line(
        "dependencies"@,
        item.dependency_factor as nat,
        "upstream / 2.0"@,
    ) + "\n"@
}

fn add_factor_line(out: &mut String, label: &str, v: u32, formula: &str)
    ensures
        final(out)@ == old(out)@ + factor_line(label@, v as nat, formula@),
{
    let mut t = String::new();
    push_two_decimals(&mut t, v as u128);
    push_str(&mut t, "  (");
    push_str(&mut t, formula);
    push_str(&mut t, ")");
    add_label_value(out, label, t.as_str());
}

fn purity_bonus_of(item: &UnifiedDebtItem) -> (r: Option<u64>)
    ensures
        match r {
            Some(b) => purity_bonus(*item) == Some(b as nat),
            None => purity_bonus(*item) is None,
        },
{
    match &item.purity_level {
        Some(l) => {
            let high = match item.purity_confidence {
                Some(c) => c > 800,
                None => false,
            };
            if str_equal(l.as_str(), "StrictlyPure") {
                Some(if high { 700 } else { 800 })
            } else if str_equal(l.as_str(), "LocallyPure") {
                Some(if high { 750 } else { 850 })
            } else if str_equal(l.as_str(), "ReadOnly") {
                Some(if high { 900 } else { 950 })
            } else if str_equal(l.as_str(), "Impure") {
                Some(1000)
            } else {
                None
            }
        },
        None => None,
    }
}

fn complexity_formula_text(item: &UnifiedDebtItem) -> (r: String)
    ensures
        r@ == complexity_formula(*item),
{
    let cyc = item.cyclomatic_complexity as u64;
    let cog: u64 = match &item.entropy_details {
        Some(e) => e.adjusted_cognitive as u64,
        None => item.cognitive_complexity as u64,
    };
    let god = match item.debt_type {
        DebtType::GodObject { .. } => true,
        _ => match &item.god_object_indicators {
            Some(g) => g.is_god_object,
            None => false,
        },
    };
    let bonus = purity_bonus_of(item);
    let (c, g, b) = match bonus {
        Some(b) => if b != 1000 {
            (cyc * b / 1000, cog * b / 1000, Some(b))
        } else {
            (cyc, cog, None)
        },
        None => (cyc, cog, None),
    };
    let mut t = String::new();
    push_str(&mut t, "(");
    push_decimal(&mut t, c as u128);
    push_str(&mut t, "×0.4 + ");
    push_decimal(&mut t, g as u128);
    push_str(&mut t, "×0.6) / 2");
    if god {
        push_str(&mut t, " × god");
    }
    match b {
        Some(b) => {
            push_str(&mut t, " [purity ×");
            push_two_decimals(&mut t, (b / 10) as u128);
            push_str(&mut t, "]");
        },
        None => {},
    }
    assert(t@ =~= complexity_formula(*item));
    t
}

/// Build the score factors section of the score breakdown page as plain
/// text.
pub fn build_score_factors_section(item: &UnifiedDebtItem) -> (r: String)
    ensures
        r@ == score_factors_text(*item),
{
    let mut out = String::new();
    add_section_header(&mut out, "score factors (0-10 scale)");
    let formula = complexity_formula_text(item);
    add_factor_line(&mut out, "complexity", item.complexity_factor, formula.as_str());
    add_factor_line(&mut out, "coverage gap", item.coverage_factor, "(1.0 - coverage%) * 10");
    add_factor_line(&mut out, "dependencies", item.dependency_factor, "upstream / 2.0");
    add_blank_line(&mut out);
    assert(out@ =~= score_factors_text(*item));
    out
}

/// The exponential factor: "no scaling" for an exponent of one, else the
/// exponent applied.
pub open spec fn exponent_text(e: nat) -> Seq<char> {
    if e == 100 {
        "no scaling"@
    } else {
        "^"@ + two_decimals(e) + " applied"@
    }
}

/// The risk boost: "none" for a boost of one, else the boost.
pub open spec fn boost_text(b: nat) -> Seq<char> {
    if b == 100 {
        "none"@
    } else {
        two_decimals(b) + "x"@
    }
}

/// The score scaling pipeline section of the score breakdown page; empty
/// where no scaling data was recorded.
pub open spec fn scaling_pipeline_text(item: UnifiedDebtItem) -> Seq<char> {
    if item.base_score is Some || item.exponential_factor is Some || item.risk_boost is Some
        || item.pre_adjustment_score is Some {
        header_text("score scaling pipeline"@) + match item.base_score {
            Some(b) => label_value_text("base score"@, two_decimals(b as nat)),
            None => Seq::empty(),
        } + match item.exponential_factor {
            Some(e) => label_value_text("exponential factor"@, exponent_text(e as nat)),
            None => Seq::empty(),
        } + match item.risk_boost {
            Some(b) => label_value_text("risk boost"@, boost_text(b as nat)),
            None => Seq::empty(),
        } + match item.pre_adjustment_score {
            Some(p) => label_value_text("pre-adjustment score"@, two_decimals(p as nat)),
            None => Seq::empty(),
        } + "\n"@
    } else {
        Seq::empty()
    }
}

/// Build the score scaling pipeline section of the score breakdown page as
/// plain text; empty where no scaling data was recorded.
pub fn build_scaling_pipeline_section(item: &UnifiedDebtItem) -> (r: String)
    ensures
        r@ == scaling_pipeline_text(*item),
{
    let mut out = String::new();
    if item.base_score.is_none() && item.exponential_factor.is_none() && item.risk_boost.is_none()
        && item.pre_adjustment_score.is_none() {
        assert(out@ =~= scaling_pipeline_text(*item));
        return out;
    }
    add_section_header(&mut out, "score scaling pipeline");
    let ghost a = out@;
    match item.base_score {
        Some(b) => {
            let mut t = String::new();
            push_two_decimals(&mut t, b as u128);
            add_label_value(&mut out, "base score", t.as_str());
        },
        None => {},
    }
    let ghost b0 = out@;
    match item.exponential_factor {
        Some(e) => {
            let mut t = String::new();
            if e == 100 {
                push_str(&mut t, "no scaling");
            } else {
                push_str(&mut t, "^");
                push_two_decimals(&mut t, e as u128);
                push_str(&mut t, " applied");
            }
            assert(t@ =~= exponent_text(e as nat));
            add_label_value(&mut out, "exponential factor", t.as_str());
        },
        None => {},
    }
    let ghost c0 = out@;
    match item.risk_boost {
        Some(bo) => {
            let mut t = String::new();
            if bo == 100 {
                push_str(&mut t, "none");
            } else {
                push_two_decimals(&mut t, bo as u128);
                push_str(&mut t, "x");
            }
            assert(t@ =~= boost_text(bo as nat));
            add_label_value(&mut out, "risk boost", t.as_str());
        },
        None => {},
    }
    let ghost d0 = out@;
    match item.pre_adjustment_score {
        Some(p) => {
            let mut t = String::new();
            push_two_decimals(&mut t, p as u128);
            add_label_value(&mut out, "pre-adjustment score", t.as_str());
        },
        None => {},
    }
    add_blank_line(&mut out);
    assert(out@ =~= scaling_pipeline_text(*item));
    out
}

/// The orchestration adjustment section of the score breakdown page; empty
/// where no adjustment was applied.
pub open spec fn orchestration_text(item: UnifiedDebtItem) -> Seq<char> {
    match item.adjustment_applied {
        Some(a) => header_text("orchestration adjustment"@) + label_value_text(
            "original score"@,
            two_decimals(a.original_score as nat),
        ) + label_value_text("adjusted score"@, two_decimals(a.adjusted_score as nat)) + label_value_text(
            "reduction"@,
            one_decimal(a.reduction_percent as nat) + "%"@,
        ) + label_value_text("reason"@, a.adjustment_reason@) + "\n"@,
        None => Seq::empty(),
    }
}

/// Build the orchestration adjustment section of the score breakdown page as
/// plain text; empty where no adjustment was applied.
pub fn build_orchestration_section(item: &UnifiedDebtItem) -> (r: String)
    ensures
        r@ == orchestration_text(*item),
{
    let mut out = String::new();
    match &item.adjustment_applied {
        Some(a) => {
            add_section_header(&mut out, "orchestration adjustment");
            let mut t = String::new();
            push_two_decimals(&mut t, a.original_score as u128);
            add_label_value(&mut out, "original score", t.as_str());
            let mut u = String::new();
            push_two_decimals(&mut u, a.adjusted_score as u128);
            add_label_value(&mut out, "adjusted score", u.as_str());
            let mut v = String::new();
            push_one_decimal(&mut v, a.reduction_percent as u128);
            push_str(&mut v, "%");
            add_label_value(&mut out, "reduction", v.as_str());
            add_label_value(&mut out, "reason", a.adjustment_reason.as_str());
            add_blank_line(&mut out);
            assert(out@ =~= orchestration_text(*item));
        },
        None => {
            assert(out@ =~= orchestration_text(*item));
        },
    }
    out
}

/// Effect of a multiplier given in thousandths.
pub open spec fn multiplier_effect(m: nat) -> Seq<char> {
    if m < 950 {
        "reduces"@
    } else if m > 1050 {
        "increases"@
    } else {
        "neutral"@
    }
}

/// A multiplier line: the label, the multiplier (thousandths) with two
/// decimals rounding halves to even, and its effect and reason.
pub open spec fn multiplier_line(label: Seq<char>, m: nat, reason: Seq<char>) -> Seq<char> {
    label_value_text(label, two_decimals(div_round_even(m, 10)) + "x  ["@ + multiplier_effect(m) + "] "@ + reason)
}

/// How the purity factor was found: the purity level, else whether the
/// function is pure, else data flow analysis; with the confidence where
/// known.
pub open spec fn purity_reason(item: UnifiedDebtItem) -> Seq<char> {
    let base = match item.purity_level {
        Some(l) => l@,
        None => match item.is_pure {
            Some(p) => if p { "pure"@ } else { "impure"@ },
            None => "data flow analysis"@,
        },
    };
    match item.purity_confidence {
        Some(c) => base + " ("@ + decimal(div_round_even(c as nat, 10)) + "% conf)"@,
        None => base,
    }
}

/// The structural multiplier line, where it differs from one by more than a
/// hundredth.
pub open spec fn structural_line(item: UnifiedDebtItem) -> Seq<char> {
    match item.structural_multiplier {
        Some(m) => if m > 1010 || m < 990 {
            multiplier_line(
                "structural"@,
                m as nat,
                if m > 1200 {
                    "deeply nested"@
                } else if m > 1000 {
                    "moderate nesting"@
                } else if m < 850 {
                    "flat structure"@
                } else {
                    "good structure"@
                },
            )
        } else {
            Seq::empty()
        },
        None => Seq::empty(),
    }
}

/// The entropy dampening line of a god object, where entropy data exists.
pub open spec fn dampening_line(item: UnifiedDebtItem) -> Seq<char> {
    if is_god_object(item) {
        match item.entropy_details {
            Some(e) => multiplier_line("entropy dampening"@, e.dampening_factor as nat, "repetitive patterns"@),
            None => match item.god_object_indicators {
                Some(g) => match g.aggregated_entropy {
                    Some(e) => multiplier_line("entropy dampening"@, e.dampening_factor as nat, "aggregated repetition"@),
                    None => Seq::empty(),
                },
                None => Seq::empty(),
            },
        }
    } else {
        Seq::empty()
    }
}

/// The multipliers section of the score breakdown page: role, and where
/// present purity, pattern, refactorability, context, structure and, for a
/// god object, entropy dampening.
pub open spec fn multipliers_text(item: UnifiedDebtItem) -> Seq<char> {
    header_text("multipliers applied"@) + multiplier_line("role"@, item.role_multiplier as nat, item.function_role@)
        + match item.purity_factor {
        Some(p) => multiplier_line("purity"@, p as nat, purity_reason(item)),
        None => Seq::empty(),
    } + match item.pattern_factor {
        Some(p) => multiplier_line("pattern"@, p as nat, "data flow vs logic"@),
        None => Seq::empty(),
    } + match item.refactorability_factor {
        Some(f) => multiplier_line("refactorability"@, f as nat, "dead stores/escape analysis"@),
        None => Seq::empty(),
    } + match item.context_multiplier {
        Some(c) => multiplier_line(
            "context"@,
            c as nat,
            match item.context_type {
                Some(t) => t@,
                None => "unknown"@,
            },
        ),
        None => Seq::empty(),
    } + structural_line(item) + dampening_line(item) + "\n"@
}

fn add_multiplier_line(out: &mut String, label: &str, m: u32, reason: &str)
    ensures
        final(out)@ == old(out)@ + multiplier_line(label@, m as nat, reason@),
{
    let mut v = String::new();
    push_two_decimals(&mut v, crate::text::round_div_even(m as u128, 10));
    push_str(&mut v, "x  [");
    let effect = if m < 950 {
        "reduces"
    } else if m > 1050 {
        "increases"
    } else {
        "neutral"
    };
    push_str(&mut v, effect);
    push_str(&mut v, "] ");
    push_str(&mut v, reason);
    assert(v@ =~= two_decimals(div_round_even(m as nat, 10)) + "x  ["@ + multiplier_effect(m as nat) + "] "@ + reason@);
    add_label_value(out, label, v.as_str());
}

fn purity_reason_text(item: &UnifiedDebtItem) -> (r: String)
    ensures
        r@ == purity_reason(*item),
{
    let mut v = String::new();
    match &item.purity_level {
        Some(l) => push_str(&mut v, l.as_str()),
        None => match item.is_pure {
            Some(p) => push_str(&mut v, if p { "pure" } else { "impure" }),
            None => push_str(&mut v, "data flow analysis"),
        },
    }
    match item.purity_confidence {
        Some(c) => {
            push_str(&mut v, " (");
            push_decimal(&mut v, crate::text::round_div_even(c as u128, 10));
            push_str(&mut v, "% conf)");
        },
        None => {},
    }
    assert(v@ =~= purity_reason(*item));
    v
}

fn add_structural_line(out: &mut String, item: &UnifiedDebtItem)
    ensures
        final(out)@ == old(out)@ + structural_line(*item),
{
    match item.structural_multiplier {
        Some(m) => {
            if m > 1010 || m < 990 {
                let desc = if m > 1200 {
                    "deeply nested"
                } else if m > 1000 {
                    "moderate nesting"
                } else if m < 850 {
                    "flat structure"
                } else {
                    "good structure"
                };
                add_multiplier_line(out, "structural", m, desc);
            } else {
                assert(out@ =~= old(out)@ + structural_line(*item));
            }
        },
        None => {
            assert(out@ =~= old(out)@ + structural_line(*item));
        },
    }
}

fn add_dampening_line(out: &mut String, item: &UnifiedDebtItem)
    ensures
        final(out)@ == old(out)@ + dampening_line(*item),
{
    let god = match item.debt_type {
        DebtType::GodObject { .. } => true,
        _ => match &item.god_object_indicators {
            Some(g) => g.is_god_object,
            None => false,
        },
    };
    if god {
        match &item.entropy_details {
            Some(e) => add_multiplier_line(out, "entropy dampening", e.dampening_factor, "repetitive patterns"),
            None => match &item.god_object_indicators {
                Some(g) => match &g.aggregated_entropy {
                    Some(e) => add_multiplier_line(out, "entropy dampening", e.dampening_factor, "aggregated repetition"),
                    None => {
                        assert(out@ =~= old(out)@ + dampening_line(*item));
                    },
                },
                None => {
                    assert(out@ =~= old(out)@ + dampening_line(*item));
                },
            },
        }
    } else {
        assert(out@ =~= old(out)@ + dampening_line(*item));
    }
}

/// Build the multipliers section of the score breakdown page as plain text.
pub fn build_multipliers_section(item: &UnifiedDebtItem) -> (r: String)
    ensures
        r@ == multipliers_text(*item),
{
    let mut out = String::new();
    add_section_header(&mut out, "multipliers applied");
    add_multiplier_line(&mut out, "role", item.role_multiplier, item.function_role.as_str());
    let ghost a = out@;
    match item.purity_factor {
        Some(p) => {
            let reason = purity_reason_text(item);
            add_multiplier_line(&mut out, "purity", p, reason.as_str());
        },
        None => {},
    }
    let ghost b = out@;
    match item.pattern_factor {
        Some(p) => add_multiplier_line(&mut out, "pattern", p, "data flow vs logic"),
        None => {},
    }
    let ghost c = out@;
    match item.refactorability_factor {
        Some(f) => add_multiplier_line(&mut out, "refactorability", f, "dead stores/escape analysis"),
        None => {},
    }
    let ghost d = out@;
    match item.context_multiplier {
        Some(m) => {
            match &item.context_type {
                Some(t) => add_multiplier_line(&mut out, "context", m, t.as_str()),
                None => add_multiplier_line(&mut out, "context", m, "unknown"),
            }
        },
        None => {},
    }
    let ghost e = out@;
    add_structural_line(&mut out, item);
    add_dampening_line(&mut out, item);
    add_blank_line(&mut out);
    assert(out@ =~= multipliers_text(*item));
    out
}

/// Plain text of the score breakdown page: the final score, the raw inputs,
/// the score factors, the multipliers applied, the scaling pipeline, for a
/// god object its impact, and the orchestration adjustment.
pub open spec fn score_breakdown_text(item: UnifiedDebtItem) -> Seq<char> {
    final_score_text(item) + raw_inputs_text(item) + score_factors_text(item) + multipliers_text(item)
        + scaling_pipeline_text(item) + god_object_impact_text(item) + orchestration_text(item)
}

/// Extract the score breakdown page as plain text.
pub fn extract_score_breakdown_text(item: &UnifiedDebtItem) -> (r: String)
    ensures
        r@ == score_breakdown_text(*item),
{
    let mut out = build_final_score_section(item);
    let raw = build_raw_inputs_section(item);
    push_str(&mut out, raw.as_str());
    let factors = build_score_factors_section(item);
    push_str(&mut out, factors.as_str());
    let mult = build_multipliers_section(item);
    push_str(&mut out, mult.as_str());
    let scaling = build_scaling_pipeline_section(item);
    push_str(&mut out, scaling.as_str());
    let god = build_god_object_impact_section(item);
    push_str(&mut out, god.as_str());
    let orchestration = build_orchestration_section(item);
    push_str(&mut out, orchestration.as_str());
    out
}

} // verus!
