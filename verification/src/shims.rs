//! Finding a shims directory on the search path, and the search path without
//! it.

use vstd::prelude::*;
use crate::path_set::{holds_canonical, joined, without_canonical, EntryView, PathEntry, PathSet};

verus! {

/// The search path without the shims directory, as one string, where the
/// shims directory is on the path; `None` where it is not.
pub open spec fn corrected(path: Seq<EntryView>, shims: EntryView, separator: Seq<char>) -> Option<
    Seq<char>,
> {
    if holds_canonical(path, shims.canonical) {
        Some(joined(without_canonical(path, shims.canonical), separator))
    } else {
        None
    }
}

/// Looks for `shims` on `path` by canonical form. Where it is there, gives the
/// value that the search path should have instead: every entry but those that
/// resolve to `shims`, in the order they had.
pub fn locate(path: &PathSet, shims: &PathEntry, separator: &str) -> (fixed: Option<String>)
    ensures
        match fixed {
            Some(text) => corrected(path@, shims@, separator@) == Some(text@),
            None => corrected(path@, shims@, separator@) is None,
        },
{
    if path.contains_canonical(shims) {
        Some(path.without(shims).render(separator))
    } else {
        None
    }
}

} // verus!
