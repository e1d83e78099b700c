//! Whether a file belongs to the project being analysed, decided from its
//! path where the path alone decides it.
use vstd::prelude::*;
use crate::text::{path_rank_vec, path_ranks};

verus! {

/// The path's first component is "..": it leaves the current directory.
pub open spec fn leaves_directory(p: Seq<char>) -> bool {
    let r = path_ranks(p);
    r.len() >= 2 && r[0] == 3 && r[1] == 0
}

/// The path is absolute: on Unix, it starts at the root.
pub open spec fn is_absolute_path(p: Seq<char>) -> bool {
    p.len() > 0 && p[0] == '/'
}

/// What the path alone says of a file's place in the project: outside for a
/// path that starts by leaving the current directory, undecided for an
/// absolute path (the file system decides), inside for any other relative
/// path.
pub open spec fn membership(p: Seq<char>) -> Option<bool> {
    if leaves_directory(p) {
        Some(false)
    } else if is_absolute_path(p) {
        None
    } else {
        Some(true)
    }
}

/// Whether a file is in the current project, as far as its path decides:
/// `None` for an absolute path, which is in the project exactly when its
/// canonical form lies under the canonical current directory (see
/// `lies_under`).
pub fn project_membership(path: &str) -> (r: Option<bool>)
    ensures
        r == membership(path@),
{
    let ranks = path_rank_vec(path);
    if ranks.len() >= 2 && ranks[0] == 3 && ranks[1] == 0 {
        Some(false)
    } else if path.unicode_len() > 0 && path.get_char(0) == '/' {
        None
    } else {
        Some(true)
    }
}

/// The components of `dir` begin the components of `path`.
pub open spec fn starts_with_dir(path: Seq<char>, dir: Seq<char>) -> bool {
    path_ranks(dir).len() <= path_ranks(path).len() && path_ranks(path).take(path_ranks(dir).len() as int)
        == path_ranks(dir)
}

/// Whether `path` lies under the directory `dir`, comparing whole components
/// as `Path::starts_with` does.
pub fn lies_under(path: &str, dir: &str) -> (r: bool)
    ensures
        r == starts_with_dir(path@, dir@),
{
    let p = path_rank_vec(path);
    let d = path_rank_vec(dir);
    if d.len() > p.len() {
        return false;
    }
    let mut i: usize = 0;
    while i < d.len()
        invariant
            p@ == path_ranks(path@),
            d@ == path_ranks(dir@),
            d.len() <= p.len(),
            i <= d.len(),
            forall|k: int| 0 <= k < i ==> p@[k] == d@[k],
        decreases d.len() - i,
    {
        if p[i] != d[i] {
            assert(p@.take(d.len() as int)[i as int] != d@[i as int]);
            return false;
        }
        i = i + 1;
    }
    assert(p@.take(d.len() as int) =~= d@);
    true
}

} // verus!
