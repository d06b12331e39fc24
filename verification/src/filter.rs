use crate::text::{contains_sub, contains_substring};
use vstd::prelude::*;
use vstd::string::*;

verus! {

/// `name` ends, ignoring letter case, in the image extension `.png`.
pub open spec fn has_png_suffix(name: Seq<char>) -> bool {
    &&& name.len() >= 4
    &&& name[name.len() - 4] == '.'
    &&& (name[name.len() - 3] == 'p' || name[name.len() - 3] == 'P')
    &&& (name[name.len() - 2] == 'n' || name[name.len() - 2] == 'N')
    &&& (name[name.len() - 1] == 'g' || name[name.len() - 1] == 'G')
}

/// A file name qualifies for classification iff it ends case-insensitively
/// in `.png` and contains `Screenshot` or `Screen Shot` as a literal
/// substring. No other heuristic is applied.
pub open spec fn spec_is_candidate(name: Seq<char>) -> bool {
    has_png_suffix(name) && (contains_sub(name, "Screenshot"@) || contains_sub(
        name,
        "Screen Shot"@,
    ))
}

/// Decides whether a file name is a processable screenshot candidate.
pub fn is_candidate(name: &str) -> (r: bool)
    ensures
        r == spec_is_candidate(name@),
{
    let n = name.unicode_len();
    if n < 4 {
        return false;
    }
    let dot = name.get_char(n - 4);
    let p = name.get_char(n - 3);
    let g1 = name.get_char(n - 2);
    let g2 = name.get_char(n - 1);
    let suffix_ok = dot == '.' && (p == 'p' || p == 'P') && (g1 == 'n' || g1 == 'N') && (g2 == 'g'
        || g2 == 'G');
    if !suffix_ok {
        return false;
    }
    contains_substring(name, "Screenshot") || contains_substring(name, "Screen Shot")
}

} // verus!
