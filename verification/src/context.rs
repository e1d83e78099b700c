//! Context page text: the code an AI agent should read to understand and fix
//! a debt item, in the form copied to the clipboard.
use vstd::prelude::*;
use crate::item::{ContextRelationship, ContextSuggestion, FileRange, RelatedContext};
use crate::text::{decimal, push_decimal, push_str};

verus! {

/// Short label of a relationship.
pub open spec fn relationship_label(rel: ContextRelationship) -> Seq<char> {
    match rel {
        ContextRelationship::Caller => "Caller"@,
        ContextRelationship::Callee => "Callee"@,
        ContextRelationship::TypeDefinition => "Type"@,
        ContextRelationship::TestCode => "Test"@,
        ContextRelationship::SiblingMethod => "Sibling"@,
        ContextRelationship::TraitDefinition => "Trait"@,
        ContextRelationship::ModuleHeader => "Module"@,
    }
}

/// `file:start-end` of a range.
pub open spec fn range_text(r: FileRange) -> Seq<char> {
    r.file@ + ":"@ + decimal(r.start_line as nat) + "-"@ + decimal(r.end_line as nat)
}

/// Clipboard text of one related range: its line, and the reason when there
/// is one.
pub open spec fn related_text(rc: RelatedContext) -> Seq<char> {
    "Related ("@ + relationship_label(rc.relationship) + "): "@ + range_text(rc.range) + "\n"@ + if rc.reason@.len()
        > 0 {
        "  Reason: "@ + rc.reason@ + "\n"@
    } else {
        Seq::<char>::empty()
    }
}

/// Clipboard text of the first `n` related ranges.
pub open spec fn related_texts(rs: Seq<RelatedContext>, n: int) -> Seq<char>
    decreases n,
{
    if n <= 0 {
        Seq::empty()
    } else {
        related_texts(rs, n - 1) + related_text(rs[n - 1])
    }
}

/// Confidence in whole percent (the suggestion holds it in thousandths).
pub open spec fn confidence_percent(c: ContextSuggestion) -> nat {
    (c.completeness_confidence / 10) as nat
}

/// The symbol line, when the primary range names a symbol.
pub open spec fn symbol_text(c: ContextSuggestion) -> Seq<char> {
    match c.primary.symbol {
        Some(s) => "  Symbol: "@ + s@ + "\n"@,
        None => Seq::empty(),
    }
}

/// Clipboard text of a context suggestion.
pub open spec fn context_clipboard_text(c: ContextSuggestion) -> Seq<char> {
    "Primary: "@ + range_text(c.primary) + "\n"@ + symbol_text(c) + related_texts(c.related@, c.related@.len() as int)
        + "\nTotal: "@ + decimal(c.total_lines as nat) + " lines, "@ + decimal(confidence_percent(c)) + "% confidence\n"@
}

/// Clipboard text of the primary range alone, with its symbol in brackets.
pub open spec fn primary_clipboard_text(c: ContextSuggestion) -> Seq<char> {
    range_text(c.primary) + match c.primary.symbol {
        Some(s) => " ("@ + s@ + ")"@,
        None => Seq::<char>::empty(),
    }
}

/// Format relationship type as short label.
pub fn format_relationship(rel: &ContextRelationship) -> (r: &'static str)
    ensures
        r@ == relationship_label(*rel),
{
    match rel {
        ContextRelationship::Caller => "Caller",
        ContextRelationship::Callee => "Callee",
        ContextRelationship::TypeDefinition => "Type",
        ContextRelationship::TestCode => "Test",
        ContextRelationship::SiblingMethod => "Sibling",
        ContextRelationship::TraitDefinition => "Trait",
        ContextRelationship::ModuleHeader => "Module",
    }
}

/// Appends `file:start-end`.
pub(crate) fn push_range(out: &mut String, r: &FileRange)
    ensures
        final(out)@ == old(out)@ + range_text(*r),
{
    push_str(out, r.file.as_str());
    push_str(out, ":");
    push_decimal(out, r.start_line as u128);
    push_str(out, "-");
    push_decimal(out, r.end_line as u128);
    proof {
        reveal_strlit(":");
        reveal_strlit("-");
    }
    assert(out@ =~= old(out)@ + range_text(*r));
}

/// Format context for clipboard (AI-friendly format).
#[verifier::rlimit(40)]
pub fn format_context_for_clipboard(context: &ContextSuggestion) -> (r: String)
    ensures
        r@ == context_clipboard_text(*context),
{
    let mut out = String::new();
    push_str(&mut out, "Primary: ");
    push_range(&mut out, &context.primary);
    push_str(&mut out, "\n");
    match &context.primary.symbol {
        Some(symbol) => {
            push_str(&mut out, "  Symbol: ");
            push_str(&mut out, symbol.as_str());
            push_str(&mut out, "\n");
        },
        None => {},
    }
    let ghost head = out@;
    assert(head =~= "Primary: "@ + range_text(context.primary) + "\n"@ + symbol_text(*context));
    let mut i: usize = 0;
    while i < context.related.len()
        invariant
            i <= context.related@.len(),
            out@ == head + related_texts(context.related@, i as int),
        decreases context.related@.len() - i,
    {
        let related = &context.related[i];
        let ghost before = out@;
        push_str(&mut out, "Related (");
        push_str(&mut out, format_relationship(&related.relationship));
        push_str(&mut out, "): ");
        push_range(&mut out, &related.range);
        push_str(&mut out, "\n");
        if related.reason.as_str().unicode_len() > 0 {
            push_str(&mut out, "  Reason: ");
            push_str(&mut out, related.reason.as_str());
            push_str(&mut out, "\n");
        }
        assert(out@ =~= before + related_text(*related));
        i = i + 1;
    }
    push_str(&mut out, "\nTotal: ");
    push_decimal(&mut out, context.total_lines as u128);
    push_str(&mut out, " lines, ");
    push_decimal(&mut out, (context.completeness_confidence / 10) as u128);
    push_str(&mut out, "% confidence\n");
    assert(out@ =~= context_clipboard_text(*context));
    out
}

/// Format primary range only for clipboard.
pub fn format_primary_for_clipboard(context: &ContextSuggestion) -> (r: String)
    ensures
        r@ == primary_clipboard_text(*context),
{
    let mut out = String::new();
    push_range(&mut out, &context.primary);
    match &context.primary.symbol {
        Some(symbol) => {
            push_str(&mut out, " (");
            push_str(&mut out, symbol.as_str());
            push_str(&mut out, ")");
        },
        None => {},
    }
    assert(out@ =~= primary_clipboard_text(*context));
    out
}

} // verus!
