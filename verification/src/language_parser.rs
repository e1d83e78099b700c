//! Parsing the languages named on the command line.
use vstd::prelude::*;
use crate::text::str_equal;

verus! {

/// A language the analysis supports.
#[derive(Debug, Clone, Copy, PartialEq, Eq, Structural)]
pub enum Language {
    Rust,
    Python,
    JavaScript,
    TypeScript,
}

/// The lowercase of a text, as `str::to_lowercase` gives it.
pub uninterp spec fn lowercased(s: Seq<char>) -> Seq<char>;

/// The lowercase of a string.
///
/// Calls `str::to_lowercase`, which lowers every character by the Unicode
/// lowercase mapping (documented as following the Derived Core Property
/// Lowercase). The result is named `lowercased`; nothing more is claimed of
/// it here.
#[verifier::external_body]
pub(crate) fn to_lowercase(s: &str) -> (r: String)
    ensures
        r@ == lowercased(s@),
{
    s.to_lowercase()
}

/// The language a lowercase name stands for: its full name or its file
/// extension.
pub open spec fn language_of_lowercase(l: Seq<char>) -> Option<Language> {
    if l == "rust"@ || l == "rs"@ {
        Some(Language::Rust)
    } else if l == "python"@ || l == "py"@ {
        Some(Language::Python)
    } else if l == "javascript"@ || l == "js"@ {
        Some(Language::JavaScript)
    } else if l == "typescript"@ || l == "ts"@ {
        Some(Language::TypeScript)
    } else {
        None
    }
}

/// The language a name stands for, ignoring case: its full name or its
/// file extension.
pub open spec fn language_named(s: Seq<char>) -> Option<Language> {
    language_of_lowercase(lowercased(s))
}

/// The languages analysed when none are named.
pub open spec fn all_languages() -> Seq<Language> {
    seq![Language::Rust, Language::Python, Language::JavaScript, Language::TypeScript]
}

/// The languages of some names, in order, skipping unknown names.
pub open spec fn languages_of(names: Seq<Seq<char>>) -> Seq<Language>
    decreases names.len(),
{
    if names.len() == 0 {
        Seq::empty()
    } else {
        let prev = languages_of(names.drop_last());
        match language_named(names.last()) {
            Some(l) => prev.push(l),
            None => prev,
        }
    }
}

/// The language a name already in lowercase stands for.
pub fn language_for_lowercase(l: &str) -> (r: Option<Language>)
    ensures
        r == language_of_lowercase(l@),
{
    if str_equal(l, "rust") || str_equal(l, "rs") {
        Some(Language::Rust)
    } else if str_equal(l, "python") || str_equal(l, "py") {
        Some(Language::Python)
    } else if str_equal(l, "javascript") || str_equal(l, "js") {
        Some(Language::JavaScript)
    } else if str_equal(l, "typescript") || str_equal(l, "ts") {
        Some(Language::TypeScript)
    } else {
        None
    }
}

/// Parse one language name (case-insensitive; full name or extension).
pub fn parse_single_language(lang_str: &str) -> (r: Option<Language>)
    ensures
        r == language_named(lang_str@),
{
    let l = to_lowercase(lang_str);
    language_for_lowercase(l.as_str())
}

/// All supported languages.
pub fn default_languages() -> (r: Vec<Language>)
    ensures
        r@ == all_languages(),
{
    let r = vec![Language::Rust, Language::Python, Language::JavaScript, Language::TypeScript];
    assert(r@ =~= all_languages());
    r
}

/// Views of some strings.
pub open spec fn name_views(v: Seq<String>) -> Seq<Seq<char>> {
    v.map_values(|s: String| s@)
}

/// The named languages (unknown names skipped), or all languages when none
/// are named.
pub fn parse_languages(languages: Option<Vec<String>>) -> (r: Vec<Language>)
    ensures
        r@ == match languages {
            Some(names) => languages_of(name_views(names@)),
            None => all_languages(),
        },
{
    match languages {
        None => default_languages(),
        Some(names) => {
            let mut r: Vec<Language> = Vec::new();
            let mut i: usize = 0;
            while i < names.len()
                invariant
                    i <= names@.len(),
                    r@ == languages_of(name_views(names@).take(i as int)),
                decreases names@.len() - i,
            {
                proof {
                    assert(name_views(names@).take(i + 1).drop_last() =~= name_views(names@).take(i as int));
                }
                match parse_single_language(names[i].as_str()) {
                    Some(l) => r.push(l),
                    None => {},
                }
                i = i + 1;
            }
            proof {
                assert(name_views(names@).take(names@.len() as int) =~= name_views(names@));
            }
            r
        },
    }
}

} // verus!
