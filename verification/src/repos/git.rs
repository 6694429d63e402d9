//! The operations of `git2` that the scanner relies on.
//!
//! Every function here hands one question to `git2` and returns the answer
//! as plain values. The answers depend on what the repository holds on disk,
//! so nothing is promised of them; what a git error says of itself is the
//! one exception, since it is read from the error value alone.

use vstd::prelude::*;
use std::path::PathBuf;
use git2::Oid;
use git2::Repository;
use git2::Revwalk;

verus! {

/// An open repository, as `git2` hands it out.
#[verifier::external_type_specification]
#[verifier::external_body]
pub struct ExRepository(Repository);

/// A failure reported by `git2`.
#[verifier::external_type_specification]
#[verifier::external_body]
pub struct ExGitError(git2::Error);

/// The identifier of an object in a repository.
#[verifier::external_type_specification]
#[verifier::external_body]
pub struct ExOid(Oid);

/// A traversal of the commit graph of a repository.
#[verifier::external_type_specification]
#[verifier::external_body]
pub struct ExRevwalk<'repo>(Revwalk<'repo>);

/// The orders in which a traversal of the commit graph can yield the
/// commits: the modes of `git2::Sort`.
#[derive(Clone, Copy, Debug, PartialEq, Eq, Structural)]
pub enum WalkOrder {
    /// No particular order.
    Unsorted,
    /// Children before parents.
    Topological,
    /// By commit time.
    Time,
    /// In reverse.
    Reverse,
}

/// Whether `git2::Error::code` reports `ErrorCode::NotFound` for the error.
pub uninterp spec fn git_error_is_not_found(error: git2::Error) -> bool;

/// The traversal is at its end: the last call of `next` on it yielded
/// nothing.
pub uninterp spec fn revwalk_ended(walk: Revwalk<'_>) -> bool;

/// The order that the traversal was last asked for with `set_sorting`; a
/// new traversal has none.
pub uninterp spec fn revwalk_order(walk: Revwalk<'_>) -> WalkOrder;

/// The commits that were handed to the traversal with `push`, to start
/// from.
pub uninterp spec fn revwalk_roots(walk: Revwalk<'_>) -> Set<Oid>;

/// The commits that the calls of `next` on the traversal have yielded so
/// far, in order.
pub uninterp spec fn revwalk_yielded(walk: Revwalk<'_>) -> Seq<Oid>;

/// The message that `git2::Error` prints of itself.
pub uninterp spec fn git_error_message(error: git2::Error) -> Seq<char>;

/// Calls `git2::Error::code` and tells whether the code is
/// `ErrorCode::NotFound`.
#[verifier::external_body]
pub(crate) fn is_not_found(error: &git2::Error) -> (missing: bool)
    ensures
        missing == git_error_is_not_found(*error),
{
    match error.code() {
        git2::ErrorCode::NotFound => true,
        _ => false,
    }
}

/// Prints the error with its `Display` impl.
#[verifier::external_body]
pub(crate) fn git_error_text(error: &git2::Error) -> (text: String)
    ensures
        text@ == git_error_message(*error),
{
    format!("{}", error)
}

/// Calls `git2::Repository::open`, which takes a working directory, a
/// `.git` directory or a bare repository alike.
#[verifier::external_body]
pub(crate) fn open_repository(path: &PathBuf) -> (opened: Result<Repository, git2::Error>)
{
    Repository::open(path)
}

/// Calls `git2::Repository::find_reference` and, on the reference found,
/// `git2::Reference::symbolic_target`: the name that a symbolic reference
/// points at, `None` for a reference that is direct or whose target is no
/// UTF-8.
#[verifier::external_body]
pub(crate) fn symbolic_target(repo: &Repository, name: &str) -> (target: Result<
    Option<String>,
    git2::Error,
>)
{
    match repo.find_reference(name) {
        Ok(reference) => Ok(reference.symbolic_target().map(|text| text.to_owned())),
        Err(error) => Err(error),
    }
}

/// Calls `git2::Repository::revparse_single` and takes the `id` of the
/// object found.
#[verifier::external_body]
pub(crate) fn revparse_single(repo: &Repository, revision: &str) -> (found: Result<
    Oid,
    git2::Error,
>)
{
    match repo.revparse_single(revision) {
        Ok(object) => Ok(object.id()),
        Err(error) => Err(error),
    }
}

/// Calls `git2::Repository::config` and, on the configuration found,
/// `get_string` for the key. The outer error is that of `config`, the inner
/// result that of `get_string`.
#[verifier::external_body]
pub(crate) fn config_string(repo: &Repository, key: &str) -> (value: Result<
    Result<String, git2::Error>,
    git2::Error,
>)
{
    match repo.config() {
        Ok(settings) => Ok(settings.get_string(key)),
        Err(error) => Err(error),
    }
}

/// Calls `git2::Repository::remotes` and owns each name; `None` stands for
/// a name that is no UTF-8.
#[verifier::external_body]
pub(crate) fn remote_names(repo: &Repository) -> (names: Result<Vec<Option<String>>, git2::Error>)
{
    match repo.remotes() {
        Ok(names) => Ok(names.iter().map(|name| name.map(|text| text.to_owned())).collect()),
        Err(error) => Err(error),
    }
}

/// Calls `git2::Repository::find_remote` and, on the remote found,
/// `git2::Remote::url`; `None` stands for a URL that is no UTF-8.
#[verifier::external_body]
pub(crate) fn remote_url(repo: &Repository, name: &str) -> (url: Result<Option<String>, git2::Error>)
{
    match repo.find_remote(name) {
        Ok(remote) => Ok(remote.url().map(|text| text.to_owned())),
        Err(error) => Err(error),
    }
}

/// Calls `git2::Repository::revwalk`. A new traversal has no order and no
/// commit to start from, and no call of `next` was made on it.
#[verifier::external_body]
pub(crate) fn new_revwalk<'repo>(repo: &'repo Repository) -> (walk: Result<
    Revwalk<'repo>,
    git2::Error,
>)
    ensures
        walk matches Ok(made) ==> {
            &&& revwalk_order(made) == WalkOrder::Unsorted
            &&& revwalk_roots(made) == Set::<Oid>::empty()
            &&& revwalk_yielded(made).len() == 0
            &&& !revwalk_ended(made)
        },
{
    repo.revwalk()
}

/// Calls `git2::Revwalk::set_sorting` with the mode of `git2::Sort` that
/// `order` stands for. Where the call goes well, that is the order asked
/// for.
#[verifier::external_body]
pub(crate) fn set_sorting<'repo>(walk: &mut Revwalk<'repo>, order: WalkOrder) -> (done: Result<
    (),
    git2::Error,
>)
    ensures
        done is Ok ==> revwalk_order(*final(walk)) == order,
        revwalk_roots(*final(walk)) == revwalk_roots(*old(walk)),
        revwalk_yielded(*final(walk)) == revwalk_yielded(*old(walk)),
{
    walk.set_sorting(
        match order {
            WalkOrder::Unsorted => git2::Sort::NONE,
            WalkOrder::Topological => git2::Sort::TOPOLOGICAL,
            WalkOrder::Time => git2::Sort::TIME,
            WalkOrder::Reverse => git2::Sort::REVERSE,
        },
    )
}

/// Calls `git2::Revwalk::push`. Where the call goes well, the commit is
/// one of those handed to the traversal.
#[verifier::external_body]
pub(crate) fn revwalk_push<'repo>(walk: &mut Revwalk<'repo>, start: Oid) -> (done: Result<
    (),
    git2::Error,
>)
    ensures
        done is Ok ==> revwalk_roots(*final(walk)) == revwalk_roots(*old(walk)).insert(start),
        revwalk_order(*final(walk)) == revwalk_order(*old(walk)),
        revwalk_yielded(*final(walk)) == revwalk_yielded(*old(walk)),
{
    walk.push(start)
}

/// Calls `next` on the traversal, which is at its end when the call
/// yields nothing.
#[verifier::external_body]
pub(crate) fn revwalk_next<'repo>(walk: &mut Revwalk<'repo>) -> (item: Option<
    Result<Oid, git2::Error>,
>)
    ensures
        revwalk_ended(*final(walk)) == (item is None),
        revwalk_order(*final(walk)) == revwalk_order(*old(walk)),
        revwalk_roots(*final(walk)) == revwalk_roots(*old(walk)),
        revwalk_yielded(*final(walk)) == match item {
            Some(Ok(commit)) => revwalk_yielded(*old(walk)).push(commit),
            _ => revwalk_yielded(*old(walk)),
        },
{
    walk.next()
}

/// Calls `git2::Repository::find_commit` and reads the seconds since the
/// epoch of the author's signature: `author().when().seconds()`.
#[verifier::external_body]
pub(crate) fn author_seconds(repo: &Repository, commit: Oid) -> (seconds: Result<i64, git2::Error>)
{
    match repo.find_commit(commit) {
        Ok(found) => Ok(found.author().when().seconds()),
        Err(error) => Err(error),
    }
}

} // verus!
