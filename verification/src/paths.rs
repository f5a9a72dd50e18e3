//! Path arithmetic, which is left to the standard library.
//!
//! A mirror lives at the destination directory joined with the repository's
//! full name. How two paths join, and what the parent of a path is, are
//! rules of the platform the library is built for; the library does not
//! restate them. It names the two results and relies on nothing but that the
//! same arguments give the same result.

use vstd::prelude::*;

verus! {

/// The path that `std::path::Path::join` gives for `base` and `relative`.
pub uninterp spec fn joined_path(base: Seq<char>, relative: Seq<char>) -> Seq<char>;

/// The path that `std::path::Path::parent` gives for `path`, if it gives one.
pub uninterp spec fn parent_path(path: Seq<char>) -> Option<Seq<char>>;

/// Joins `relative` onto `base` with `std::path::Path::join`.
///
/// Trusted: the result is taken to be a function of the two arguments, and
/// nothing else is claimed of it. Both arguments are valid UTF-8, so the
/// joined path is too, and the conversion back to a string loses nothing.
#[verifier::external_body]
pub(crate) fn join_path(base: &str, relative: &str) -> (joined: String)
    ensures
        joined@ == joined_path(base@, relative@),
{
    std::path::Path::new(base).join(relative).to_string_lossy().into_owned()
}

/// The parent of `path` by `std::path::Path::parent`: the path without its
/// final component, or `None` where it has none to drop.
///
/// Trusted: the result is taken to be a function of the argument, and
/// nothing else is claimed of it. The parent of a path that is valid UTF-8
/// is valid UTF-8, so the conversion back to a string loses nothing.
#[verifier::external_body]
pub(crate) fn parent_of(path: &str) -> (parent: Option<String>)
    ensures
        parent.deep_view() == parent_path(path@),
{
    std::path::Path::new(path).parent().map(|p| p.to_string_lossy().into_owned())
}

} // verus!
