//! File-system paths as text.
//!
//! The library never touches the file system; it only takes paths apart and
//! puts them together, and leaves that to `std::path`. Nothing in this file is
//! proved: each function hands its arguments to one function of `std::path`
//! and its contract gives the outcome a name, so that the contracts of the
//! verified code can say which paths they mean.

use vstd::prelude::*;

verus! {

/// What `Path::join` makes of `base` and `segment`.
pub uninterp spec fn path_join(base: Seq<char>, segment: Seq<char>) -> Seq<char>;

/// What `Path::parent` finds for `path`: the path without its last
/// component, if it has one.
pub uninterp spec fn path_parent(path: Seq<char>) -> Option<Seq<char>>;

/// What `Path::file_stem` finds for `path`: its file name without the last
/// extension, if it has a file name.
pub uninterp spec fn path_file_stem(path: Seq<char>) -> Option<Seq<char>>;

/// Whether `Path::starts_with` finds the components of `base` at the start of
/// those of `path`.
pub uninterp spec fn path_starts_with(path: Seq<char>, base: Seq<char>) -> bool;

/// Calls `Path::join`. Assumed: the joined path depends on the two texts
/// only, and is handed back as text unchanged.
#[verifier::external_body]
pub(crate) fn join_path(base: &str, segment: &str) -> (joined: String)
    ensures
        joined@ == path_join(base@, segment@),
{
    std::path::Path::new(base).join(segment).to_string_lossy().into_owned()
}

/// Calls `Path::parent`. Assumed: whether there is a parent, and which,
/// depends on the text only.
#[verifier::external_body]
pub(crate) fn parent_path(path: &str) -> (parent: Option<String>)
    ensures
        parent.deep_view() == path_parent(path@),
{
    match std::path::Path::new(path).parent() {
        Some(parent) => Some(parent.to_string_lossy().into_owned()),
        None => None,
    }
}

/// Calls `Path::file_stem`. Assumed: whether there is a stem, and which,
/// depends on the text only.
#[verifier::external_body]
pub(crate) fn file_stem(path: &str) -> (stem: Option<String>)
    ensures
        stem.deep_view() == path_file_stem(path@),
{
    match std::path::Path::new(path).file_stem() {
        Some(stem) => Some(stem.to_string_lossy().into_owned()),
        None => None,
    }
}

/// Calls `Path::starts_with`. Assumed: the answer depends on the two texts
/// only.
#[verifier::external_body]
pub(crate) fn path_begins(path: &str, base: &str) -> (begins: bool)
    ensures
        begins == path_starts_with(path@, base@),
{
    std::path::Path::new(path).starts_with(base)
}

} // verus!
