//! File-system paths as text.
//!
//! Paths are held as strings. Taking a path apart and putting one together is
//! left to `std::path`, through the three trusted functions of this module;
//! what they return is named by the spec functions beside them, and the rest
//! of the crate states its results over those names.
use vstd::prelude::*;
use crate::text::opt_text;

verus! {

/// What `std::path::Path::join` makes of `base` and `part`, on the platform
/// the crate is built for.
pub uninterp spec fn path_join(base: Seq<char>, part: Seq<char>) -> Seq<char>;

/// What `std::path::Path::file_name` finds in `path`: its final component, if
/// that is a normal one.
pub uninterp spec fn path_file_name(path: Seq<char>) -> Option<Seq<char>>;

/// What `std::path::Path::with_file_name` makes of `path` and `name`.
pub uninterp spec fn path_with_file_name(path: Seq<char>, name: Seq<char>) -> Seq<char>;

/// Calls `std::path::Path::join`. Trusted: the result is the one that
/// `path_join` names; nothing more is claimed of it.
#[verifier::external_body]
pub(crate) fn join(base: &str, part: &str) -> (joined: String)
    ensures
        joined@ == path_join(base@, part@),
{
    std::path::Path::new(base).join(part).to_string_lossy().into_owned()
}

/// Calls `std::path::Path::file_name`. Trusted: the result is the one that
/// `path_file_name` names; nothing more is claimed of it.
#[verifier::external_body]
pub(crate) fn file_name(path: &str) -> (name: Option<String>)
    ensures
        opt_text(name) == path_file_name(path@),
{
    match std::path::Path::new(path).file_name() {
        Some(name) => Some(name.to_string_lossy().into_owned()),
        None => None,
    }
}

/// Calls `std::path::Path::with_file_name`. Trusted: the result is the one
/// that `path_with_file_name` names; nothing more is claimed of it.
#[verifier::external_body]
pub(crate) fn with_file_name(path: &str, name: &str) -> (renamed: String)
    ensures
        renamed@ == path_with_file_name(path@, name@),
{
    std::path::Path::new(path).with_file_name(name).to_string_lossy().into_owned()
}

/// `base` followed by two further components.
pub open spec fn path_join2(base: Seq<char>, a: Seq<char>, b: Seq<char>) -> Seq<char> {
    path_join(path_join(base, a), b)
}

/// `base` followed by three further components.
pub open spec fn path_join3(base: Seq<char>, a: Seq<char>, b: Seq<char>, c: Seq<char>) -> Seq<
    char,
> {
    path_join(path_join2(base, a, b), c)
}

/// Appends two components to `base`.
pub fn join2(base: &str, a: &str, b: &str) -> (joined: String)
    ensures
        joined@ == path_join2(base@, a@, b@),
{
    let first = join(base, a);
    join(first.as_str(), b)
}

/// Appends three components to `base`.
pub fn join3(base: &str, a: &str, b: &str, c: &str) -> (joined: String)
    ensures
        joined@ == path_join3(base@, a@, b@, c@),
{
    let first = join2(base, a, b);
    join(first.as_str(), c)
}

} // verus!
