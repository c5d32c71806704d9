//! Arithmetic on the text of file paths, done by `std::path` and the
//! `pathdiff` crate. No file system is ever consulted.
//!
//! Nothing in this module is proved. The contracts below are what the rest of
//! the crate assumes of the three operations. Each of them is a function of
//! the text of its arguments, in the path syntax of the platform that the
//! crate is built for.

use std::path::Path;
use vstd::prelude::*;

verus! {

/// The path `path` without its final component, as `std::path::Path::parent`
/// gives it: `None` when `path` ends in a root or is empty.
pub uninterp spec fn parent_of(path: Seq<char>) -> Option<Seq<char>>;

/// The path `path` adjoined to the path `base`, as `std::path::Path::join`
/// gives it; `None` when the outcome is no valid Unicode text.
pub uninterp spec fn joined_path(base: Seq<char>, path: Seq<char>) -> Option<Seq<char>>;

/// The path that leads from the directory `base` to `path`, as
/// `pathdiff::diff_paths` gives it; `None` when it finds none, or when the
/// outcome is no valid Unicode text.
pub uninterp spec fn relative_path(path: Seq<char>, base: Seq<char>) -> Option<Seq<char>>;

/// Calls `std::path::Path::parent` on `path` and hands the parent back as
/// text.
///
/// Assumed: the outcome is a function of the text of `path` alone, which
/// [`parent_of`] names.
#[verifier::external_body]
pub(crate) fn parent(path: &str) -> (dir: Option<String>)
    ensures
        dir.deep_view() == parent_of(path@),
{
    match Path::new(path).parent() {
        Some(dir) => dir.to_str().map(String::from),
        None => None,
    }
}

/// Calls `std::path::Path::join` on `base` with `path` and hands the joined
/// path back as text.
///
/// Assumed: the outcome is a function of the text of `base` and `path` alone,
/// which [`joined_path`] names.
#[verifier::external_body]
pub(crate) fn join(base: &str, path: &str) -> (joined: Option<String>)
    ensures
        joined.deep_view() == joined_path(base@, path@),
{
    Path::new(base).join(path).to_str().map(String::from)
}

/// Calls `pathdiff::diff_paths` with `path` and the base directory `base`
/// and hands the relative path back as text.
///
/// Assumed: the outcome is a function of the text of `path` and `base` alone,
/// which [`relative_path`] names.
#[verifier::external_body]
pub(crate) fn diff(path: &str, base: &str) -> (relative: Option<String>)
    ensures
        relative.deep_view() == relative_path(path@, base@),
{
    match pathdiff::diff_paths(path, base) {
        Some(relative) => relative.to_str().map(String::from),
        None => None,
    }
}

} // verus!
