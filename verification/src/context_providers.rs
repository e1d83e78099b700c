//! Which context providers a risk analysis runs: those named (or the
//! defaults), less those disabled.
use vstd::prelude::*;
use crate::text::str_equal;

verus! {

/// The providers run when none are named.
pub open spec fn default_providers() -> Seq<Seq<char>> {
    seq!["critical_path"@, "dependency"@, "git_history"@]
}

/// Views of some strings.
pub open spec fn string_views(v: Seq<String>) -> Seq<Seq<char>> {
    v.map_values(|s: String| s@)
}

/// `names` in order, without those in `disabled`.
pub open spec fn without_disabled(names: Seq<Seq<char>>, disabled: Seq<Seq<char>>) -> Seq<Seq<char>>
    decreases names.len(),
{
    if names.len() == 0 {
        Seq::empty()
    } else {
        let prev = without_disabled(names.drop_last(), disabled);
        if disabled.contains(names.last()) {
            prev
        } else {
            prev.push(names.last())
        }
    }
}

/// The providers to run: none when context is off; otherwise the named
/// providers (the defaults when none are named) less the disabled ones.
pub open spec fn chosen_providers(
    enable_context: bool,
    named: Option<Seq<Seq<char>>>,
    disabled: Option<Seq<Seq<char>>>,
) -> Option<Seq<Seq<char>>> {
    if !enable_context {
        None
    } else {
        Some(
            without_disabled(
                match named {
                    Some(n) => n,
                    None => default_providers(),
                },
                match disabled {
                    Some(d) => d,
                    None => Seq::empty(),
                },
            ),
        )
    }
}

/// The default context providers.
pub fn get_default_providers() -> (r: Vec<String>)
    ensures
        string_views(r@) == default_providers(),
{
    let r = vec![String::from_str("critical_path"), String::from_str("dependency"), String::from_str("git_history")];
    assert(string_views(r@) =~= default_providers());
    r
}

/// Whether `name` is among `names`.
fn named_in(names: &Vec<String>, name: &str) -> (r: bool)
    ensures
        r == string_views(names@).contains(name@),
{
    let mut i: usize = 0;
    while i < names.len()
        invariant
            i <= names.len(),
            forall|k: int| 0 <= k < i ==> names@[k]@ != name@,
        decreases names.len() - i,
    {
        if str_equal(names[i].as_str(), name) {
            assert(string_views(names@)[i as int] == name@);
            return true;
        }
        i = i + 1;
    }
    assert forall|k: int| 0 <= k < string_views(names@).len() implies string_views(names@)[k] != name@ by {}
    false
}

/// The context providers a risk analysis runs: none when context is off;
/// otherwise the named providers (the defaults when none are named), in
/// order, less the disabled ones.
pub fn enabled_context_providers(
    enable_context: bool,
    context_providers: Option<Vec<String>>,
    disable_context: Option<Vec<String>>,
) -> (r: Option<Vec<String>>)
    ensures
        match r {
            Some(v) => chosen_providers(
                enable_context,
                match context_providers {
                    Some(n) => Some(string_views(n@)),
                    None => None,
                },
                match disable_context {
                    Some(d) => Some(string_views(d@)),
                    None => None,
                },
            ) == Some(string_views(v@)),
            None => !enable_context,
        },
{
    if !enable_context {
        return None;
    }
    let names = match context_providers {
        Some(n) => n,
        None => get_default_providers(),
    };
    let disabled = match disable_context {
        Some(d) => d,
        None => Vec::new(),
    };
    let ghost nv = string_views(names@);
    let ghost dv = string_views(disabled@);
    assert(dv =~= match disable_context {
        Some(d) => string_views(d@),
        None => Seq::<Seq<char>>::empty(),
    });
    assert(nv == match context_providers {
        Some(n) => string_views(n@),
        None => default_providers(),
    });
    let mut out: Vec<String> = Vec::new();
    let mut i: usize = 0;
    while i < names.len()
        invariant
            i <= names.len(),
            nv == string_views(names@),
            dv == string_views(disabled@),
            string_views(out@) == without_disabled(nv.take(i as int), dv),
        decreases names.len() - i,
    {
        proof {
            assert(nv.take(i + 1).drop_last() =~= nv.take(i as int));
            assert(nv.take(i + 1).last() == names@[i as int]@);
        }
        if !named_in(&disabled, names[i].as_str()) {
            let name = names[i].clone();
            out.push(name);
            assert(string_views(out@) =~= string_views(out@.drop_last()).push(out@.last()@));
        }
        i = i + 1;
    }
    assert(nv.take(names.len() as int) =~= nv);
    Some(out)
}

} // verus!
