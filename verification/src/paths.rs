//! Lexical questions about path strings, answered by `std::path`.
//!
//! `std::path` reads a path by the syntax of the platform the library is built
//! for. Its answers depend on the characters of the path alone, never on the
//! filesystem, so each is given a name that contracts can speak of.

use vstd::prelude::*;

verus! {

/// Whether `std::path::Path::is_relative` holds of the path with these characters.
pub uninterp spec fn path_is_relative(path: Seq<char>) -> bool;

/// Whether `std::path::Path::starts_with` holds of the path `path` and the
/// base `base`: whether the components of `base` are the first components of
/// `path`.
pub uninterp spec fn path_starts_with(path: Seq<char>, base: Seq<char>) -> bool;

/// What `std::path::Path::parent` gives for the path with these characters:
/// the path without its last component, where it has one.
pub uninterp spec fn path_parent(path: Seq<char>) -> Option<Seq<char>>;

/// Whether the paths with these characters are equal as `std::path::Path`
/// compares them with `==`: component by component, so that a separator at
/// the end, or one written twice, counts for nothing.
pub uninterp spec fn path_same(a: Seq<char>, b: Seq<char>) -> bool;

/// `std` gives `Path` the trait `Eq`, and so documents its `==` as an
/// equivalence. Nothing in this library rests on that but the laws that take
/// it as a premise.
pub open spec fn path_same_is_equivalence() -> bool {
    &&& forall|a: Seq<char>| #[trigger] path_same(a, a)
    &&& forall|a: Seq<char>, b: Seq<char>| #[trigger] path_same(a, b) ==> path_same(b, a)
    &&& forall|a: Seq<char>, b: Seq<char>, c: Seq<char>|
        #[trigger] path_same(a, b) && #[trigger] path_same(b, c) ==> path_same(a, c)
}

/// Calls `==` of `std::path::Path`. Trusted: the answer is the one that
/// `path_same` names.
#[verifier::external_body]
pub(crate) fn same(a: &str, b: &str) -> (same: bool)
    ensures
        same == path_same(a@, b@),
{
    std::path::Path::new(a) == std::path::Path::new(b)
}

/// Calls `std::path::Path::is_relative`. Trusted: the answer is the one that
/// `path_is_relative` names.
#[verifier::external_body]
pub(crate) fn is_relative(path: &str) -> (relative: bool)
    ensures
        relative == path_is_relative(path@),
{
    std::path::Path::new(path).is_relative()
}

/// Calls `std::path::Path::starts_with`. Trusted: the answer is the one that
/// `path_starts_with` names.
#[verifier::external_body]
pub(crate) fn starts_with(path: &str, base: &str) -> (nested: bool)
    ensures
        nested == path_starts_with(path@, base@),
{
    std::path::Path::new(path).starts_with(base)
}

/// Calls `std::path::Path::parent`. Trusted: the result is the one that
/// `path_parent` names. The parent of a path made of a string is a piece of
/// that string, so turning it back into a string loses nothing.
#[verifier::external_body]
pub(crate) fn parent(path: &str) -> (dir: Option<String>)
    ensures
        match dir {
            Some(d) => path_parent(path@) == Some(d@),
            None => path_parent(path@) is None,
        },
{
    match std::path::Path::new(path).parent() {
        Some(dir) => Some(dir.to_string_lossy().into_owned()),
        None => None,
    }
}

} // verus!
