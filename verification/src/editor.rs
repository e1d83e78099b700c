//! Editor launching: the arguments that place an editor at a line, and the
//! order of suspending and resuming the terminal around it.
use vstd::prelude::*;
use crate::text::{decimal, push_decimal, push_str, str_equal};

verus! {

/// Editors that take the line as `+N` before the file.
pub open spec fn plus_line_editor(e: Seq<char>) -> bool {
    e == "vim"@ || e == "nvim"@ || e == "vi"@ || e == "emacs"@ || e == "nano"@
}

/// Editors that take `--goto file:N`.
pub open spec fn goto_editor(e: Seq<char>) -> bool {
    e == "code"@ || e == "code-insiders"@
}

/// Editors that take `file:N`.
pub open spec fn colon_line_editor(e: Seq<char>) -> bool {
    e == "subl"@ || e == "sublime"@ || e == "sublime_text"@ || e == "hx"@ || e == "helix"@
}

/// The arguments that open `path` at `line` in `editor`: the line goes in the
/// form the editor understands, and only the path is passed when there is no
/// line or the editor is not known.
pub open spec fn editor_arguments(editor: Seq<char>, path: Seq<char>, line: Option<usize>) -> Seq<Seq<char>> {
    match line {
        None => seq![path],
        Some(n) => if plus_line_editor(editor) {
            seq!["+"@ + decimal(n as nat), path]
        } else if goto_editor(editor) {
            seq!["--goto"@, path + ":"@ + decimal(n as nat)]
        } else if colon_line_editor(editor) {
            seq![path + ":"@ + decimal(n as nat)]
        } else {
            seq![path]
        },
    }
}

/// Whether `e` is one of `names`.
fn one_of(e: &str, names: &Vec<&str>) -> (r: bool)
    ensures
        r == exists|i: int| 0 <= i < names@.len() && (#[trigger] names@[i])@ == e@,
{
    let mut i: usize = 0;
    while i < names.len()
        invariant
            i <= names@.len(),
            forall|k: int| 0 <= k < i ==> (#[trigger] names@[k])@ != e@,
        decreases names@.len() - i,
    {
        if str_equal(names[i], e) {
            return true;
        }
        i = i + 1;
    }
    false
}

/// A string holding `s`.
fn owned(s: &str) -> (r: String)
    ensures
        r@ == s@,
{
    let mut r = String::new();
    push_str(&mut r, s);
    r
}

/// `path:line`.
fn path_at_line(path: &str, line: usize) -> (r: String)
    ensures
        r@ == path@ + ":"@ + decimal(line as nat),
{
    let mut r = String::new();
    push_str(&mut r, path);
    push_str(&mut r, ":");
    push_decimal(&mut r, line as u128);
    r
}

/// Views of some strings.
pub open spec fn string_views(v: Seq<String>) -> Seq<Seq<char>> {
    v.map_values(|s: String| s@)
}

/// Editor arguments that open `path` at `line`.
pub fn arguments(editor: &str, path: &str, line: Option<usize>) -> (r: Vec<String>)
    ensures
        string_views(r@) == editor_arguments(editor@, path@, line),
{
    let plus = vec!["vim", "nvim", "vi", "emacs", "nano"];
    let goto = vec!["code", "code-insiders"];
    let colon = vec!["subl", "sublime", "sublime_text", "hx", "helix"];
    let r = match line {
        None => vec![owned(path)],
        Some(n) => {
            let is_plus = one_of(editor, &plus);
            let is_goto = one_of(editor, &goto);
            let is_colon = one_of(editor, &colon);
            proof {
                assert(is_plus == plus_line_editor(editor@)) by {
                    if plus_line_editor(editor@) {
                        if editor@ == "vim"@ { assert(plus@[0]@ == editor@); }
                        if editor@ == "nvim"@ { assert(plus@[1]@ == editor@); }
                        if editor@ == "vi"@ { assert(plus@[2]@ == editor@); }
                        if editor@ == "emacs"@ { assert(plus@[3]@ == editor@); }
                        if editor@ == "nano"@ { assert(plus@[4]@ == editor@); }
                    }
                }
                assert(is_goto == goto_editor(editor@)) by {
                    if goto_editor(editor@) {
                        if editor@ == "code"@ { assert(goto@[0]@ == editor@); }
                        if editor@ == "code-insiders"@ { assert(goto@[1]@ == editor@); }
                    }
                }
                assert(is_colon == colon_line_editor(editor@)) by {
                    if colon_line_editor(editor@) {
                        if editor@ == "subl"@ { assert(colon@[0]@ == editor@); }
                        if editor@ == "sublime"@ { assert(colon@[1]@ == editor@); }
                        if editor@ == "sublime_text"@ { assert(colon@[2]@ == editor@); }
                        if editor@ == "hx"@ { assert(colon@[3]@ == editor@); }
                        if editor@ == "helix"@ { assert(colon@[4]@ == editor@); }
                    }
                }
            }
            if is_plus {
                let mut first = String::new();
                push_str(&mut first, "+");
                push_decimal(&mut first, n as u128);
                vec![first, owned(path)]
            } else if is_goto {
                vec![owned("--goto"), path_at_line(path, n)]
            } else if is_colon {
                vec![path_at_line(path, n)]
            } else {
                vec![owned(path)]
            }
        },
    };
    assert(string_views(r@) =~= editor_arguments(editor@, path@, line));
    r
}

/// Runs `action` between `suspend` and `resume`, so that the terminal is
/// restored even when the action fails. Nothing runs after a failed
/// suspension and its error is returned; otherwise `resume` always runs, and
/// its error takes priority over the action's.
pub fn with_suspended_tui<E, S, A, R>(suspend: S, action: A, resume: R) -> (r: Result<(), E>) where
    S: FnOnce() -> Result<(), E>,
    A: FnOnce() -> Result<(), E>,
    R: FnOnce() -> Result<(), E>,

    requires
        suspend.requires(()),
        action.requires(()),
        resume.requires(()),
    ensures
        (exists|s: Result<(), E>| suspend.ensures((), s) && s is Err && r == s) || (exists|
            s: Result<(), E>,
            a: Result<(), E>,
            z: Result<(), E>,
        |
            suspend.ensures((), s) && s is Ok && action.ensures((), a) && resume.ensures((), z) && r == (if z is Err {
                z
            } else {
                a
            })),
{
    let s = suspend();
    match s {
        Err(e) => Err(e),
        Ok(()) => {
            let result = action();
            let z = resume();
            match z {
                Err(e) => Err(e),
                Ok(()) => result,
            }
        },
    }
}

} // verus!
