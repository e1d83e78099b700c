//! Data flow page advice: what to do about each impurity reason, and a fix
//! that makes an impure function pure when its impurity has a single simple
//! cause.
use vstd::prelude::*;
use crate::language_parser::{lowercased, to_lowercase};
use crate::text::push_str;

verus! {

/// Whether `word` occurs in `s`.
pub open spec fn occurs(s: Seq<char>, word: Seq<char>) -> bool {
    exists|i: int| 0 <= i && i + word.len() <= s.len() && #[trigger] s.subrange(i, i + word.len()) == word
}

/// The fix suggested for an impurity reason already in lowercase, if any.
pub open spec fn fix_for(r: Seq<char>) -> Option<Seq<char>> {
    if occurs(r, "i/o"@) || occurs(r, "print"@) || occurs(r, "log"@) {
        Some("Move logging to caller - function becomes pure"@)
    } else if occurs(r, "time"@) || occurs(r, "now"@) {
        Some("Pass time as parameter instead of calling now()"@)
    } else if occurs(r, "random"@) || occurs(r, "rand"@) {
        Some("Inject RNG as parameter for deterministic behavior"@)
    } else if occurs(r, "mutable param"@) || occurs(r, "&mut"@) {
        Some("Consider taking &self instead of &mut self"@)
    } else {
        None
    }
}

/// The fix suggested for some impurity reasons: none for more than two
/// reasons or for none; otherwise the fix for the first reason, matched
/// without regard to case.
pub open spec fn suggestion_for(reasons: Seq<Seq<char>>) -> Option<Seq<char>> {
    if reasons.len() > 2 || reasons.len() == 0 {
        None
    } else {
        fix_for(lowercased(reasons[0]))
    }
}

/// Whether `word` occurs in `s`.
fn contains_word(s: &str, word: &str) -> (r: bool)
    ensures
        r == occurs(s@, word@),
{
    let n = s.unicode_len();
    let m = word.unicode_len();
    if m > n {
        assert forall|i: int| 0 <= i && i + m <= n implies #[trigger] s@.subrange(i, i + m) != word@ by {}
        return false;
    }
    let mut i: usize = 0;
    while i <= n - m
        invariant
            m == word@.len(),
            n == s@.len(),
            m <= n,
            i <= n - m + 1,
            forall|k: int| 0 <= k < i ==> #[trigger] s@.subrange(k, k + m) != word@,
        decreases n - i,
    {
        let mut j: usize = 0;
        let mut same = true;
        while j < m
            invariant
                m == word@.len(),
                n == s@.len(),
                i + m <= n,
                j <= m,
                same == (forall|k: int| 0 <= k < j ==> s@[i + k] == #[trigger] word@[k]),
            decreases m - j,
        {
            if s.get_char(i + j) != word.get_char(j) {
                same = false;
            }
            j = j + 1;
        }
        if same {
            assert(s@.subrange(i as int, i + m) =~= word@);
            return true;
        }
        assert(s@.subrange(i as int, i + m) != word@) by {
            let k = choose|k: int| 0 <= k < m && s@[i + k] != #[trigger] word@[k];
            assert(s@.subrange(i as int, i + m)[k] == s@[i + k]);
        }
        i = i + 1;
    }
    false
}

/// The fix suggested for an impurity reason already in lowercase.
pub fn fix_for_lowercase(l: &str) -> (r: Option<&'static str>)
    ensures
        match r {
            Some(t) => fix_for(l@) == Some(t@),
            None => fix_for(l@) is None,
        },
{
    if contains_word(l, "i/o") || contains_word(l, "print") || contains_word(l, "log") {
        Some("Move logging to caller - function becomes pure")
    } else if contains_word(l, "time") || contains_word(l, "now") {
        Some("Pass time as parameter instead of calling now()")
    } else if contains_word(l, "random") || contains_word(l, "rand") {
        Some("Inject RNG as parameter for deterministic behavior")
    } else if contains_word(l, "mutable param") || contains_word(l, "&mut") {
        Some("Consider taking &self instead of &mut self")
    } else {
        None
    }
}

/// The fix suggested for some impurity reasons.
pub fn get_fix_suggestion(reasons: &Vec<String>) -> (r: Option<&'static str>)
    ensures
        match r {
            Some(t) => suggestion_for(reasons@.map_values(|s: String| s@)) == Some(t@),
            None => suggestion_for(reasons@.map_values(|s: String| s@)) is None,
        },
{
    if reasons.len() > 2 || reasons.len() == 0 {
        return None;
    }
    let first = to_lowercase(reasons[0].as_str());
    fix_for_lowercase(first.as_str())
}

/// An impurity reason with a hint on how to remove it, the hint chosen by
/// the reason's lowercase `l`; unsafe code and unknown reasons get no hint.
pub open spec fn reason_hinted(reason: Seq<char>, l: Seq<char>) -> Seq<char> {
    if occurs(l, "i/o"@) || occurs(l, "print"@) {
        reason + " (extract to caller)"@
    } else if occurs(l, "mutable"@) || occurs(l, "&mut"@) {
        reason + " (consider &self instead)"@
    } else if occurs(l, "unsafe"@) {
        reason
    } else if occurs(l, "external"@) {
        reason + " (pass as parameter)"@
    } else {
        reason
    }
}

/// An impurity reason with a hint on how to remove it, matched without
/// regard to case.
pub open spec fn reason_with_suggestion(reason: Seq<char>) -> Seq<char> {
    reason_hinted(reason, lowercased(reason))
}

/// An impurity reason with its hint, given the reason and its lowercase.
pub fn reason_with_hint(reason: &str, l: &str) -> (r: String)
    ensures
        r@ == reason_hinted(reason@, l@),
{
    let mut r = String::new();
    push_str(&mut r, reason);
    if contains_word(l, "i/o") || contains_word(l, "print") {
        push_str(&mut r, " (extract to caller)");
    } else if contains_word(l, "mutable") || contains_word(l, "&mut") {
        push_str(&mut r, " (consider &self instead)");
    } else if contains_word(l, "unsafe") {
    } else if contains_word(l, "external") {
        push_str(&mut r, " (pass as parameter)");
    }
    r
}

/// Format a reason with inline suggestion context.
pub fn format_reason_with_suggestion(reason: &str) -> (r: String)
    ensures
        r@ == reason_with_suggestion(reason@),
{
    let l = to_lowercase(reason);
    reason_with_hint(reason, l.as_str())
}

} // verus!
