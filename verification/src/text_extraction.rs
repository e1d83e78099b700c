//! Text copied to the clipboard for a file path.
use vstd::prelude::*;
use crate::text::push_str;

verus! {

/// Format a path as a string for clipboard copying (the path's own text).
pub fn format_path_text(path: &str) -> (r: String)
    ensures
        r@ == path@,
{
    let mut r = String::new();
    push_str(&mut r, path);
    r
}

} // verus!
