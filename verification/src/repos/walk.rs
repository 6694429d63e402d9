//! The operations of `walkdir` that the scanner relies on.

use vstd::prelude::*;
use std::path::PathBuf;
use walkdir::DirEntry;
use super::paths::lies_under;

verus! {

/// A failure reported by `walkdir` while reading a directory tree.
#[verifier::external_type_specification]
#[verifier::external_body]
pub struct ExWalkError(walkdir::Error);

/// An entry that `walkdir` yields.
#[verifier::external_type_specification]
#[verifier::external_body]
pub struct ExDirEntry(DirEntry);

/// A depth-first walk over the directories of one tree, as `walkdir` runs
/// it: only directories are visited.
#[verifier::external_body]
pub struct DirWalker {
    inner: walkdir::FilterEntry<walkdir::IntoIter, Box<dyn FnMut(&DirEntry) -> bool>>,
}

/// The root that a walk was started at.
pub uninterp spec fn walk_root(walker: DirWalker) -> PathBuf;

/// The directories that a walk has been told to skip: it yields nothing
/// that lies under one of them.
pub uninterp spec fn walk_closed(walker: DirWalker) -> Set<PathBuf>;

/// The directory that a walk is in: the one that its last step yielded,
/// `None` where the last step yielded none.
pub uninterp spec fn walk_current(walker: DirWalker) -> Option<PathBuf>;

/// The walk is at its end: its last step yielded nothing, and neither will
/// any later one.
pub uninterp spec fn walk_ended(walker: DirWalker) -> bool;

/// Whether the walk was started with `follow_links` set: it then goes into
/// a symbolic link to a directory as into the directory.
pub uninterp spec fn walk_follows_links(walker: DirWalker) -> bool;

/// What the steps of the walk have yielded so far, in order: the path of
/// each entry, or the failure.
pub uninterp spec fn walk_yielded(walker: DirWalker) -> Seq<Result<PathBuf, walkdir::Error>>;

/// Whether `walkdir::DirEntry::file_type` says that the entry is a
/// directory.
pub uninterp spec fn entry_is_directory(entry: DirEntry) -> bool;

/// The path that `walkdir::DirEntry::path` gives for an entry.
pub uninterp spec fn entry_location(entry: DirEntry) -> PathBuf;

/// Builds the walk: `walkdir::WalkDir::new` on the root, `follow_links`
/// as asked, `into_iter`, and `filter_entry` with the test that the file
/// type of an entry is a directory. Nothing is skipped or yielded yet, and
/// no step was made.
#[verifier::external_body]
pub(crate) fn start_walk(root: &PathBuf, follow_links: bool) -> (walker: DirWalker)
    ensures
        walk_root(walker) == *root,
        walk_closed(walker) == Set::<PathBuf>::empty(),
        walk_current(walker) is None,
        !walk_ended(walker),
        walk_follows_links(walker) == follow_links,
        walk_yielded(walker).len() == 0,
{
    let keep: Box<dyn FnMut(&DirEntry) -> bool> = Box::new(|entry| entry.file_type().is_dir());
    let walk = walkdir::WalkDir::new(root).follow_links(follow_links);
    DirWalker { inner: walk.into_iter().filter_entry(keep) }
}

/// Calls `next` on the walk. The path of an entry is the root joined with
/// the file names that lead to the entry, so the root can be stripped from
/// it. An entry is yielded from the listing of its parent directory, and a
/// directory that was skipped is not listed: no entry lies under one. The
/// filter lets directories through only. A directory is yielded before
/// what lies in it, and once only: nothing that was yielded earlier lies at
/// or under the entry. The iterator is fused: once it has yielded `None`
/// it goes on doing so.
#[verifier::external_body]
pub(crate) fn walker_next(walker: &mut DirWalker) -> (step: Option<Result<DirEntry, walkdir::Error>>)
    ensures
        walk_root(*final(walker)) == walk_root(*old(walker)),
        walk_closed(*final(walker)) == walk_closed(*old(walker)),
        walk_current(*final(walker)) == match step {
            Some(Ok(entry)) => Some(entry_location(entry)),
            _ => None,
        },
        walk_ended(*final(walker)) == (step is None),
        walk_ended(*old(walker)) ==> step is None,
        walk_follows_links(*final(walker)) == walk_follows_links(*old(walker)),
        walk_yielded(*final(walker)) == match step {
            Some(Ok(entry)) => walk_yielded(*old(walker)).push(Ok(entry_location(entry))),
            Some(Err(error)) => walk_yielded(*old(walker)).push(Err(error)),
            None => walk_yielded(*old(walker)),
        },
        step matches Some(Ok(entry)) ==> entry_is_directory(entry),
        step matches Some(Ok(entry)) ==> forall|i: int|
            0 <= i < walk_yielded(*old(walker)).len() ==> (#[trigger] walk_yielded(
                *old(walker),
            )[i] matches Ok(earlier) ==> !lies_under(earlier, entry_location(entry))),
        step matches Some(Ok(entry)) ==> {
            &&& lies_under(entry_location(entry), walk_root(*old(walker)))
            &&& forall|closed: PathBuf| #[trigger]
                walk_closed(*old(walker)).contains(closed) ==> !lies_under(
                    entry_location(entry),
                    closed,
                )
        },
{
    walker.inner.next()
}

/// Calls `skip_current_dir` on the walk: the directory that was yielded
/// last is not descended into. Called at any other time it would leave the
/// parent of the last entry instead.
#[verifier::external_body]
pub(crate) fn walker_skip_current_dir(walker: &mut DirWalker)
    requires
        walk_current(*old(walker)) is Some,
    ensures
        walk_root(*final(walker)) == walk_root(*old(walker)),
        walk_closed(*final(walker)) == walk_closed(*old(walker)).insert(
            walk_current(*old(walker))->0,
        ),
        walk_current(*final(walker)) is None,
        walk_ended(*final(walker)) == walk_ended(*old(walker)),
        walk_follows_links(*final(walker)) == walk_follows_links(*old(walker)),
        walk_yielded(*final(walker)) == walk_yielded(*old(walker)),
{
    walker.inner.skip_current_dir()
}

/// Copies `walkdir::DirEntry::path`.
#[verifier::external_body]
pub(crate) fn entry_path(entry: &DirEntry) -> (path: PathBuf)
    ensures
        path == entry_location(*entry),
{
    entry.path().to_path_buf()
}

/// Prints the error with its `Display` impl. The text holds what the
/// operating system says of the failure, so nothing is promised of it.
#[verifier::external_body]
pub(crate) fn walk_error_text(error: &walkdir::Error) -> (text: String)
{
    format!("{}", error)
}

} // verus!
