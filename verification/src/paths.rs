//! Paths as text. What the parts of a path are is for `std::path` to say. It
//! reads a path by its text alone, with the separators of the platform that
//! the crate is built for, and asks no file system: each answer depends on the
//! text and on nothing else, and has a name here that contracts can speak of.
//!
//! A part of a path that was given as text is text again, so nothing is lost
//! where an answer is turned back into a `String`.

use vstd::prelude::*;

verus! {

/// The last component of `path` as `std::path::Path::file_name` gives it, or
/// `None` where the path has none: where it is empty, is a root, or ends in
/// `..`.
pub uninterp spec fn path_file_name(path: Seq<char>) -> Option<Seq<char>>;

/// `dir` with `name` adjoined, as `std::path::Path::join` gives it.
pub uninterp spec fn path_join(dir: Seq<char>, name: Seq<char>) -> Seq<char>;

/// `path` with the extension of its file name set to `extension`, as
/// `std::path::Path::with_extension` gives it.
pub uninterp spec fn path_with_extension(path: Seq<char>, extension: Seq<char>) -> Seq<char>;

/// The extension of the file name of `path` as `std::path::Path::extension`
/// gives it, without the dot, or `None` where there is none.
pub uninterp spec fn path_extension(path: Seq<char>) -> Option<Seq<char>>;

/// Whether `a` and `b` are the same path to `std::path::Path`'s `==`, which
/// compares them component by component.
pub uninterp spec fn path_eq(a: Seq<char>, b: Seq<char>) -> bool;

/// Whether `extension` can be given to a path: it holds no path separator.
pub open spec fn is_plain_extension(extension: Seq<char>) -> bool {
    !extension.contains('/') && !extension.contains('\\')
}

/// Calls `std::path::Path::file_name`. The result is the named
/// `path_file_name` of the path.
#[verifier::external_body]
pub(crate) fn file_name(path: &str) -> (name: Option<String>)
    ensures
        match name {
            Some(n) => path_file_name(path@) == Some(n@),
            None => path_file_name(path@) is None,
        },
{
    std::path::Path::new(path).file_name().map(|name| name.to_string_lossy().into_owned())
}

/// Calls `std::path::Path::join`. The result is the named `path_join` of the
/// two paths.
#[verifier::external_body]
pub(crate) fn join(dir: &str, name: &str) -> (joined: String)
    ensures
        joined@ == path_join(dir@, name@),
{
    std::path::Path::new(dir).join(name).to_string_lossy().into_owned()
}

/// Calls `std::path::Path::with_extension`, which panics on an extension with
/// a path separator in it. The result is the named `path_with_extension`.
#[verifier::external_body]
pub(crate) fn with_extension(path: &str, extension: &str) -> (changed: String)
    requires
        is_plain_extension(extension@),
    ensures
        changed@ == path_with_extension(path@, extension@),
{
    std::path::Path::new(path).with_extension(extension).to_string_lossy().into_owned()
}

/// Calls `std::path::Path::extension`. The result is the named
/// `path_extension` of the path.
#[verifier::external_body]
pub(crate) fn extension(path: &str) -> (found: Option<String>)
    ensures
        match found {
            Some(e) => path_extension(path@) == Some(e@),
            None => path_extension(path@) is None,
        },
{
    std::path::Path::new(path).extension().map(|found| found.to_string_lossy().into_owned())
}

/// Compares two paths with `std::path::Path`'s `==`. The result is the named
/// `path_eq` of the two.
#[verifier::external_body]
pub(crate) fn same_path(a: &str, b: &str) -> (same: bool)
    ensures
        same == path_eq(a@, b@),
{
    std::path::Path::new(a) == std::path::Path::new(b)
}

} // verus!
