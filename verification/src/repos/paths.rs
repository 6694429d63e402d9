//! File-system paths, as far as the scanner reads them.
//!
//! A path is opaque to the proofs. What the standard library computes from
//! paths is given a name here, and each call states that it returns the
//! named value.

use vstd::prelude::*;
use std::path::Path;
use std::path::PathBuf;

verus! {

/// An owned path of the file system.
#[verifier::external_type_specification]
#[verifier::external_body]
pub struct ExPathBuf(PathBuf);

/// A borrowed path of the file system.
#[verifier::external_type_specification]
#[verifier::external_body]
pub struct ExPath(Path);

/// The text of a path as `Path::to_string_lossy` gives it.
pub uninterp spec fn path_text(path: PathBuf) -> Seq<char>;

/// The text of a path as `Path::display` prints it.
pub uninterp spec fn path_shown(path: PathBuf) -> Seq<char>;

/// What `Path::strip_prefix` leaves of `path` when `base` is taken away
/// from its front, or `None` where `base` is no prefix of `path`.
pub uninterp spec fn path_suffix(path: PathBuf, base: PathBuf) -> Option<PathBuf>;

/// The owned path that `Path::to_path_buf` makes of a borrowed one.
pub uninterp spec fn path_owned(path: &Path) -> PathBuf;

/// The path that `PathBuf::from` makes of a text.
pub uninterp spec fn path_of_text(text: Seq<char>) -> PathBuf;

/// `path` lies at or below `base`: `base` can be stripped from its front.
pub open spec fn lies_under(path: PathBuf, base: PathBuf) -> bool {
    path_suffix(path, base) is Some
}

/// Calls `Path::to_string_lossy` and owns the result.
#[verifier::external_body]
pub(crate) fn lossy_text(path: &PathBuf) -> (text: String)
    ensures
        text@ == path_text(*path),
{
    path.to_string_lossy().into_owned()
}

/// Prints `Path::display` into a string.
#[verifier::external_body]
pub(crate) fn shown_text(path: &PathBuf) -> (text: String)
    ensures
        text@ == path_shown(*path),
{
    format!("{}", path.display())
}

/// Calls `Path::strip_prefix` and owns what is left; `None` stands for its
/// error, which carries no information.
#[verifier::external_body]
pub(crate) fn strip_prefix(path: &PathBuf, base: &PathBuf) -> (rest: Option<PathBuf>)
    ensures
        rest == path_suffix(*path, *base),
{
    match path.strip_prefix(base) {
        Ok(rest) => Some(rest.to_path_buf()),
        Err(_) => None,
    }
}

/// Calls `Path::to_path_buf`.
#[verifier::external_body]
pub(crate) fn to_owned_path(path: &Path) -> (owned: PathBuf)
    ensures
        owned == path_owned(path),
{
    path.to_path_buf()
}

/// Calls `PathBuf::from` on a text.
#[verifier::external_body]
pub(crate) fn path_from_text(text: &str) -> (path: PathBuf)
    ensures
        path == path_of_text(text@),
{
    PathBuf::from(text)
}

/// `PathBuf::clone` gives an equal path.
pub assume_specification[ <PathBuf as Clone>::clone ](path: &PathBuf) -> (copy: PathBuf)
    ensures
        copy == *path,
;

} // verus!
