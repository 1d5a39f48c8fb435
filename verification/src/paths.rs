//! What this crate takes from `std::path`.
//!
//! Paths cross the crate's boundary as text. How a path splits into
//! components is the platform's business, so each question put to `std::path`
//! has a name here, and nothing is said of the answer beyond that name: it is a
//! function of the path's text alone, for the platform the crate is built for.

use vstd::prelude::*;

verus! {

/// What `Path::is_absolute` answers for a path.
pub uninterp spec fn path_is_absolute(path: Seq<char>) -> bool;

/// What `Path::join` gives for a base and a path.
pub uninterp spec fn path_join(base: Seq<char>, path: Seq<char>) -> Seq<char>;

/// What `Path::file_name` gives for a path: its final component, if it has one.
pub uninterp spec fn path_file_name(path: Seq<char>) -> Option<Seq<char>>;

/// What `Path::file_stem` gives for a path: its file name without the
/// extension, if it has a file name.
pub uninterp spec fn path_file_stem(path: Seq<char>) -> Option<Seq<char>>;

/// What `Path::parent` gives for a path: the path without its final component,
/// if it has one.
pub uninterp spec fn path_parent(path: Seq<char>) -> Option<Seq<char>>;

/// The path that `PathBuf::set_extension` leaves in place of `path` when it is
/// given `extension`.
pub uninterp spec fn path_with_extension(path: Seq<char>, extension: Seq<char>) -> Seq<char>;

/// Whether a text holds no path separator, of any platform: neither `/` nor
/// `\`.
pub open spec fn has_no_separator(text: Seq<char>) -> bool {
    forall|k: int| 0 <= k < text.len() ==> text[k] != '/' && text[k] != '\\'
}

/// Whether two paths are equal as `Path` values, which compares them component
/// by component.
pub uninterp spec fn same_path(a: Seq<char>, b: Seq<char>) -> bool;

/// Calls `Path::is_absolute`. Trusted: the answer is the one named
/// [`path_is_absolute`].
#[verifier::external_body]
pub(crate) fn is_absolute(path: &str) -> (absolute: bool)
    ensures
        absolute == path_is_absolute(path@),
{
    std::path::Path::new(path).is_absolute()
}

/// Calls `Path::join`. Trusted: the result is the one named [`path_join`].
#[verifier::external_body]
pub(crate) fn join(base: &str, path: &str) -> (joined: String)
    ensures
        joined@ == path_join(base@, path@),
{
    std::path::Path::new(base).join(path).to_string_lossy().into_owned()
}

/// Calls `Path::file_name`. Trusted: the result is the one named
/// [`path_file_name`].
#[verifier::external_body]
pub(crate) fn file_name(path: &str) -> (name: Option<String>)
    ensures
        name is Some == path_file_name(path@) is Some,
        name matches Some(n) ==> Some(n@) == path_file_name(path@),
{
    match std::path::Path::new(path).file_name() {
        Some(name) => Some(name.to_string_lossy().into_owned()),
        None => None,
    }
}

/// Calls `Path::file_stem`. Trusted: the result is the one named
/// [`path_file_stem`].
#[verifier::external_body]
pub(crate) fn file_stem(path: &str) -> (stem: Option<String>)
    ensures
        stem is Some == path_file_stem(path@) is Some,
        stem matches Some(s) ==> Some(s@) == path_file_stem(path@),
{
    match std::path::Path::new(path).file_stem() {
        Some(stem) => Some(stem.to_string_lossy().into_owned()),
        None => None,
    }
}

/// Calls `Path::parent`. Trusted: the result is the one named [`path_parent`].
#[verifier::external_body]
pub(crate) fn parent(path: &str) -> (dir: Option<String>)
    ensures
        dir is Some == path_parent(path@) is Some,
        dir matches Some(d) ==> Some(d@) == path_parent(path@),
{
    match std::path::Path::new(path).parent() {
        Some(dir) => Some(dir.to_string_lossy().into_owned()),
        None => None,
    }
}

/// Calls `PathBuf::set_extension` on a copy of `path`. Trusted: the result is
/// the one named [`path_with_extension`]. The call panics on an extension
/// that holds a path separator, so none is admitted.
#[verifier::external_body]
pub(crate) fn with_extension(path: &str, extension: &str) -> (derived: String)
    requires
        has_no_separator(extension@),
    ensures
        derived@ == path_with_extension(path@, extension@),
{
    let mut derived = std::path::PathBuf::from(path);
    derived.set_extension(extension);
    derived.to_string_lossy().into_owned()
}

/// Compares two paths with `Path`'s `==`. Trusted: the answer is the one named
/// [`same_path`], and a path equals itself.
#[verifier::external_body]
pub(crate) fn paths_equal(a: &str, b: &str) -> (equal: bool)
    ensures
        equal == same_path(a@, b@),
        a@ == b@ ==> equal,
{
    std::path::Path::new(a) == std::path::Path::new(b)
}

} // verus!
