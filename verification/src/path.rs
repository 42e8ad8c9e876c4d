//! Path arithmetic, done by the standard library on paths held as strings.
//!
//! Every function here hands its arguments to one method of
//! `std::path::Path` and returns what came back. Verus does not look inside
//! these methods: each result is known to the proofs only by a name, which
//! stands for what the method computes on the platform that the library is
//! built for.

use vstd::prelude::*;

verus! {

/// What `std::path::Path::join` returns for `base` and `path`.
pub uninterp spec fn path_join(base: Seq<char>, path: Seq<char>) -> Seq<char>;

/// What `std::path::Path::strip_prefix` returns for `path` and `base`, with
/// `None` where it reports that `base` is no prefix of `path`.
pub uninterp spec fn path_strip_prefix(path: Seq<char>, base: Seq<char>) -> Option<Seq<char>>;

/// Whether `std::path::Path` holds the two paths to be equal.
pub uninterp spec fn path_eq(left: Seq<char>, right: Seq<char>) -> bool;

/// What `std::path::Path::with_file_name` returns for `path` and `name`.
pub uninterp spec fn path_with_file_name(path: Seq<char>, name: Seq<char>) -> Seq<char>;

/// What `std::path::Path::parent` returns for `path`.
pub uninterp spec fn path_parent(path: Seq<char>) -> Option<Seq<char>>;

/// Calls `std::path::Path::join`. Trusted: the result is the one named by
/// [`path_join`]; nothing else is claimed of it.
#[verifier::external_body]
pub(crate) fn join(base: &str, path: &str) -> (joined: String)
    ensures
        joined@ == path_join(base@, path@),
{
    std::path::Path::new(base).join(path).to_string_lossy().into_owned()
}

/// Calls `std::path::Path::strip_prefix`. Trusted: the result is the one
/// named by [`path_strip_prefix`]; nothing else is claimed of it.
#[verifier::external_body]
pub(crate) fn strip_prefix(path: &str, base: &str) -> (rest: Option<String>)
    ensures
        match rest {
            Some(r) => path_strip_prefix(path@, base@) == Some(r@),
            None => path_strip_prefix(path@, base@) is None,
        },
{
    match std::path::Path::new(path).strip_prefix(base) {
        Ok(rest) => Some(rest.to_string_lossy().into_owned()),
        Err(_) => None,
    }
}

/// Compares two paths with the `==` of `std::path::Path`. Trusted: the
/// result is the one named by [`path_eq`], and a path equals itself.
#[verifier::external_body]
pub(crate) fn same_path(left: &str, right: &str) -> (same: bool)
    ensures
        same == path_eq(left@, right@),
        left@ == right@ ==> same,
{
    std::path::Path::new(left) == std::path::Path::new(right)
}

/// Calls `std::path::Path::with_file_name`. Trusted: the result is the one
/// named by [`path_with_file_name`]; nothing else is claimed of it.
#[verifier::external_body]
pub(crate) fn with_file_name(path: &str, name: &str) -> (renamed: String)
    ensures
        renamed@ == path_with_file_name(path@, name@),
{
    std::path::Path::new(path).with_file_name(name).to_string_lossy().into_owned()
}

/// The parent directory of `path`, if it has one. The root directory has
/// none.
pub open spec fn parent_of(path: Seq<char>) -> Option<Seq<char>> {
    if path == "/"@ {
        None
    } else {
        path_parent(path)
    }
}

/// Calls `std::path::Path::parent`. Trusted: the result is the one named by
/// [`path_parent`], and the root directory has no parent.
#[verifier::external_body]
pub(crate) fn parent(path: &str) -> (up: Option<String>)
    ensures
        match up {
            Some(p) => path_parent(path@) == Some(p@),
            None => path_parent(path@) is None,
        },
        path@ == "/"@ ==> up is None,
{
    match std::path::Path::new(path).parent() {
        Some(up) => Some(up.to_string_lossy().into_owned()),
        None => None,
    }
}

} // verus!
