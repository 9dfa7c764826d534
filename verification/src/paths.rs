//! Trusted wrappers around `std::path` and `str` operations.
//!
//! Paths travel through the library as plain `String`s; the few questions the
//! navigation logic asks of a path (its parent, its file name, substring
//! matching for the search overlay) are answered by `std`, behind the small
//! wrappers in this module.

use vstd::prelude::*;

verus! {

/// The view of `Path::parent` applied to a path string: `None` when the path
/// terminates in a root or is empty, otherwise the path without its final
/// component.
pub uninterp spec fn parent_of(s: Seq<char>) -> Option<Seq<char>>;

/// The view of `Path::file_name` applied to a path string: the final normal
/// component, or `None` when there is none (root paths, paths ending in
/// `..`).
pub uninterp spec fn file_name_of(s: Seq<char>) -> Option<Seq<char>>;

/// `needle` occurs contiguously inside `hay`.
pub open spec fn contains_seq(hay: Seq<char>, needle: Seq<char>) -> bool {
    exists|i: int|
        0 <= i && i + needle.len() <= hay.len() && #[trigger] hay.subrange(i, i + needle.len())
            == needle
}

/// `parent_of`, with `None` collapsed to the empty path, as the navigation
/// state stores ancestor paths.
pub open spec fn parent_or_empty_of(s: Seq<char>) -> Seq<char> {
    match parent_of(s) {
        Some(p) => p,
        None => Seq::<char>::empty(),
    }
}

/// Relies on `std::path::Path::parent`: the result is a function of the path
/// text alone; it is `None` exactly when the path has no final component to
/// drop.
#[verifier::external_body]
pub(crate) fn parent_str(s: &str) -> (r: Option<String>)
    ensures
        match r {
            Some(p) => parent_of(s@) == Some(p@),
            None => parent_of(s@) is None,
        },
{
    std::path::Path::new(s).parent().map(|p| p.to_string_lossy().into_owned())
}

/// Relies on `std::path::Path::file_name`: the result is a function of the
/// path text alone; it is `None` exactly when the path has no final normal
/// component.
#[verifier::external_body]
pub(crate) fn file_name_str(s: &str) -> (r: Option<String>)
    ensures
        match r {
            Some(n) => file_name_of(s@) == Some(n@),
            None => file_name_of(s@) is None,
        },
{
    std::path::Path::new(s).file_name().map(|n| n.to_string_lossy().into_owned())
}

/// Relies on `str::contains` with a `&str` pattern: true exactly when the
/// pattern matches a sub-slice of the haystack.
#[verifier::external_body]
pub(crate) fn str_contains(hay: &str, needle: &str) -> (r: bool)
    ensures
        r == contains_seq(hay@, needle@),
{
    hay.contains(needle)
}

/// The parent of `s`, or the empty path when `s` has none.
pub fn generate_parent_path(s: &str) -> (r: String)
    ensures
        r@ == parent_or_empty_of(s@),
{
    match parent_str(s) {
        Some(p) => p,
        None => String::new(),
    }
}

} // verus!
