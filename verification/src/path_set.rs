//! The search path as an ordered list of directories, compared by the places
//! they resolve to rather than by how they are spelled: two directories are
//! one where their canonical forms are equal as paths.

use vstd::prelude::*;
use vstd::string::StringExecFns;
use crate::paths::{path_same, path_starts_with, same, starts_with};

verus! {

/// One directory: the string it was given as, and the canonical form that
/// comparisons go by.
#[derive(Debug, PartialEq, Eq)]
pub struct PathEntry {
    pub raw: String,
    pub canonical: String,
}

/// What a `PathEntry` stands for.
pub ghost struct EntryView {
    pub raw: Seq<char>,
    pub canonical: Seq<char>,
}

impl View for PathEntry {
    type V = EntryView;

    open spec fn view(&self) -> EntryView {
        EntryView { raw: self.raw@, canonical: self.canonical@ }
    }
}

impl Clone for PathEntry {
    fn clone(&self) -> (copy: PathEntry)
        ensures
            copy@ == self@,
    {
        PathEntry { raw: self.raw.clone(), canonical: self.canonical.clone() }
    }
}

impl PathEntry {
    /// An entry for `raw`. `resolved` is the symlink-free absolute form of
    /// `raw` where the filesystem could give one; where it could not, the
    /// entry is compared by `raw` itself.
    pub fn new(raw: String, resolved: Option<String>) -> (entry: PathEntry)
        ensures
            entry.raw@ == raw@,
            entry.canonical@ == match resolved {
                Some(c) => c@,
                None => raw@,
            },
    {
        match resolved {
            Some(canonical) => PathEntry { raw, canonical },
            None => {
                let canonical = raw.clone();
                PathEntry { raw, canonical }
            },
        }
    }
}

/// Some entry of `path` has a canonical form that is the same path as
/// `canonical`.
pub open spec fn holds_canonical(path: Seq<EntryView>, canonical: Seq<char>) -> bool {
    exists|i: int| 0 <= i < path.len() && path_same((#[trigger] path[i]).canonical, canonical)
}

/// The entries whose canonical form is another path than `canonical`.
pub open spec fn elsewhere(canonical: Seq<char>) -> spec_fn(EntryView) -> bool {
    |e: EntryView| !path_same(e.canonical, canonical)
}

/// `path` with every entry taken out whose canonical form is the same path as
/// `canonical`, the others in the order they had.
pub open spec fn without_canonical(path: Seq<EntryView>, canonical: Seq<char>) -> Seq<EntryView> {
    path.filter(elsewhere(canonical))
}

/// The raw strings of `path` in order, with `separator` between neighbours.
pub open spec fn joined(path: Seq<EntryView>, separator: Seq<char>) -> Seq<char>
    decreases path.len(),
{
    if path.len() == 0 {
        Seq::empty()
    } else if path.len() == 1 {
        path[0].raw
    } else {
        joined(path.drop_last(), separator) + separator + path.last().raw
    }
}

/// The directories of a search path, first searched first.
#[derive(Debug, PartialEq, Eq)]
pub struct PathSet {
    pub entries: Vec<PathEntry>,
}

/// What stands for each of `entries`, in order.
pub open spec fn entry_views(entries: Seq<PathEntry>) -> Seq<EntryView> {
    Seq::new(entries.len(), |i: int| entries[i]@)
}

impl View for PathSet {
    type V = Seq<EntryView>;

    open spec fn view(&self) -> Seq<EntryView> {
        entry_views(self.entries@)
    }
}

/// Calls `itertools::Itertools::contains` on the canonical forms of `entries`,
/// in order, each taken as a `std::path::Path`. Trusted: it answers whether
/// one of them equals `canonical`, as paths compare.
#[verifier::external_body]
fn any_canonical(entries: &Vec<PathEntry>, canonical: &str) -> (found: bool)
    ensures
        found == (exists|i: int|
            0 <= i < entries.len() && path_same(
                (#[trigger] entries[i]).canonical@,
                canonical@,
            )),
{
    itertools::Itertools::contains(
        &mut entries.iter().map(|e| std::path::Path::new(e.canonical.as_str())),
        std::path::Path::new(canonical),
    )
}

impl PathSet {
    /// The path set with these entries, in this order.
    pub fn new(entries: Vec<PathEntry>) -> (set: PathSet)
        ensures
            set.entries == entries,
    {
        PathSet { entries }
    }

    /// Whether `dir` resolves to the same place as some entry: whether the
    /// canonical form of some entry and that of `dir` are equal as paths.
    pub fn contains_canonical(&self, dir: &PathEntry) -> (found: bool)
        ensures
            found == holds_canonical(self@, dir.canonical@),
    {
        let found = any_canonical(&self.entries, dir.canonical.as_str());
        proof {
            if found {
                let i = choose|i: int|
                    0 <= i < self.entries.len() && path_same(
                        (#[trigger] self.entries[i]).canonical@,
                        dir.canonical@,
                    );
                assert(path_same(self@[i].canonical, dir.canonical@));
            } else if holds_canonical(self@, dir.canonical@) {
                let i = choose|i: int|
                    0 <= i < self@.len() && path_same(
                        (#[trigger] self@[i]).canonical,
                        dir.canonical@,
                    );
                assert(path_same(self.entries[i].canonical@, dir.canonical@));
            }
        }
        found
    }

    /// Whether the canonical form of `dir` lies under `prefix`, component by
    /// component.
    pub fn is_under(dir: &PathEntry, prefix: &str) -> (nested: bool)
        ensures
            nested == path_starts_with(dir.canonical@, prefix@),
    {
        starts_with(dir.canonical.as_str(), prefix)
    }

    /// The set without the entries that resolve to the same place as `dir`,
    /// canonical forms compared as paths.
    pub fn without(&self, dir: &PathEntry) -> (rest: PathSet)
        ensures
            rest@ == without_canonical(self@, dir.canonical@),
    {
        let mut kept: Vec<PathEntry> = Vec::new();
        let mut i: usize = 0;
        while i < self.entries.len()
            invariant
                i <= self.entries.len(),
                entry_views(kept@) == without_canonical(self@.take(i as int), dir.canonical@),
            decreases self.entries.len() - i,
        {
            let ghost before = entry_views(kept@);
            proof {
                self@.take(i as int).lemma_filter_push(self@[i as int], elsewhere(dir.canonical@));
                assert(self@.take(i as int + 1) =~= self@.take(i as int).push(self@[i as int]));
            }
            if !same(self.entries[i].canonical.as_str(), dir.canonical.as_str()) {
                kept.push(self.entries[i].clone());
                assert(entry_views(kept@) =~= before.push(self@[i as int]));
            }
            i += 1;
        }
        assert(self@.take(i as int) =~= self@);
        PathSet { entries: kept }
    }

    /// The raw strings of the entries, in order, joined by `separator`.
    pub fn render(&self, separator: &str) -> (text: String)
        ensures
            text@ == joined(self@, separator@),
    {
        let mut text = String::new();
        let mut i: usize = 0;
        while i < self.entries.len()
            invariant
                i <= self.entries.len(),
                text@ == joined(self@.take(i as int), separator@),
            decreases self.entries.len() - i,
        {
            proof {
                assert(self@.take(i as int + 1).drop_last() =~= self@.take(i as int));
                assert(self@.take(i as int + 1).last() == self@[i as int]);
            }
            if i > 0 {
                text.append(separator);
            }
            text.append(self.entries[i].raw.as_str());
            i += 1;
        }
        assert(self@.take(i as int) =~= self@);
        text
    }
}

} // verus!
