//! The history of one repository: the times at which its commits were
//! written.

use vstd::prelude::*;
use std::path::PathBuf;
use git2::Oid;
use git2::Repository;
use git2::Revwalk;
use super::branch::get_default_branch;
use super::branch::search_from;
use super::branch::Lookup;
use super::branch::Step;
use super::errors::ScanError;
use super::git::author_seconds;
use super::git::new_revwalk;
use super::git::open_repository;
use super::git::remote_names;
use super::git::remote_url;
use super::git::revwalk_ended;
use super::git::revwalk_order;
use super::git::revwalk_roots;
use super::git::revwalk_yielded;
use super::git::revwalk_next;
use super::git::revwalk_push;
use super::git::set_sorting;
use super::git::WalkOrder;
use super::hosting::is_github;
use super::hosting::is_github_url;

verus! {

/// What a remote says of where the history of a repository is kept.
pub enum RemoteVerdict {
    /// The remote points at the hosting provider, as its URL, which is the
    /// one given, shows: the history is kept there, and none is read here.
    Hosted(String),
    /// The remote says nothing: the next remote is looked at.
    Elsewhere,
    /// The remote could not be read.
    Failed(git2::Error),
}

/// What a remote says, given how the lookup of its URL ended. A remote
/// without a readable URL says nothing.
pub open spec fn verdict_of(url: Result<Option<String>, git2::Error>) -> RemoteVerdict {
    match url {
        Ok(Some(text)) => if is_github(text@) {
            RemoteVerdict::Hosted(text)
        } else {
            RemoteVerdict::Elsewhere
        },
        Ok(None) => RemoteVerdict::Elsewhere,
        Err(error) => RemoteVerdict::Failed(error),
    }
}

/// Judges a remote by what the lookup of its URL gave.
pub fn judge_remote(url: Result<Option<String>, git2::Error>) -> (verdict: RemoteVerdict)
    ensures
        verdict == verdict_of(url),
{
    match url {
        Ok(Some(text)) => {
            if is_github_url(text.as_str()) {
                RemoteVerdict::Hosted(text)
            } else {
                RemoteVerdict::Elsewhere
            }
        },
        Ok(None) => RemoteVerdict::Elsewhere,
        Err(error) => RemoteVerdict::Failed(error),
    }
}

/// Looks for a remote of the repository that points at the hosting
/// provider, and gives the URL of the first that does. The remotes are
/// looked at in the order in which the repository lists them; a remote
/// whose name or URL is no UTF-8 is passed over.
///
/// The repository counts as hosted only on the strength of a URL that is
/// the provider's. A remote that cannot be read fails the search, with the
/// failure that git reported.
pub fn hosted_elsewhere(repo: &Repository) -> (hosted: Result<Option<String>, ScanError>)
    ensures
        hosted matches Ok(Some(url)) ==> is_github(url@),
        hosted matches Err(error) ==> error is Git,
{
    let names = match remote_names(repo) {
        Ok(names) => names,
        Err(error) => {
            return Err(ScanError::Git(error));
        },
    };
    let mut i: usize = 0;
    while i < names.len()
        invariant
            i <= names.len(),
        decreases names.len() - i,
    {
        match &names[i] {
            Some(name) => match judge_remote(remote_url(repo, name.as_str())) {
                RemoteVerdict::Hosted(url) => {
                    return Ok(Some(url));
                },
                RemoteVerdict::Elsewhere => {},
                RemoteVerdict::Failed(error) => {
                    return Err(ScanError::Git(error));
                },
            },
            None => {},
        }
        i = i + 1;
    }
    Ok(None)
}

/// Adds the author time of one more commit to the history, given how
/// reading the commit ended. A commit that cannot be read fails the
/// history and leaves it as it was.
pub fn record_time(times: &mut Vec<i64>, read: Result<i64, git2::Error>) -> (done: Result<
    (),
    ScanError,
>)
    ensures
        match read {
            Ok(seconds) => done is Ok && final(times)@ == old(times)@.push(seconds),
            Err(error) => {
                &&& done == Result::<(), ScanError>::Err(ScanError::Git(error))
                &&& final(times)@ == old(times)@
            },
        },
{
    match read {
        Ok(seconds) => {
            times.push(seconds);
            Ok(())
        },
        Err(error) => Err(ScanError::Git(error)),
    }
}

/// The traversal is set up to walk the ancestry of `start`, newest commit
/// time first: the order asked for is that of time, `start` alone was
/// handed to it, and it has yielded nothing yet.
pub open spec fn prepared_at(walk: Revwalk<'_>, start: Oid) -> bool {
    &&& revwalk_order(walk) == WalkOrder::Time
    &&& revwalk_roots(walk) == Set::<Oid>::empty().insert(start)
    &&& revwalk_yielded(walk).len() == 0
}

/// The traversal was set up at `start`, and `count` times were read of the
/// commits that it yielded: one of each commit, and all that there are,
/// unless `count` is as many as can be held.
pub open spec fn walked_out(walk: Revwalk<'_>, start: Oid, count: nat) -> bool {
    &&& revwalk_order(walk) == WalkOrder::Time
    &&& revwalk_roots(walk) == Set::<Oid>::empty().insert(start)
    &&& revwalk_yielded(walk).len() == count
    &&& revwalk_ended(walk) || count == usize::MAX
}

/// `times` is what reading the history from `start` can give: the times
/// of a traversal that was set up at `start` and walked out, or a failure
/// that git reported.
pub open spec fn history_from(start: Oid, times: Result<Vec<i64>, ScanError>) -> bool {
    match times {
        Ok(found) => exists|walk: Revwalk<'_>| #[trigger] walked_out(walk, start, found@.len()),
        Err(error) => error is Git,
    }
}

/// Sets up the traversal of the ancestry of `start`: a new traversal that
/// is asked for the order of commit time and is handed `start`.
pub fn prepare_walk<'repo>(repo: &'repo Repository, start: Oid) -> (walk: Result<
    Revwalk<'repo>,
    ScanError,
>)
    ensures
        walk matches Ok(ready) ==> prepared_at(ready, start),
        walk matches Err(error) ==> error is Git,
{
    let mut walk = match new_revwalk(repo) {
        Ok(walk) => walk,
        Err(error) => {
            return Err(ScanError::Git(error));
        },
    };
    match set_sorting(&mut walk, WalkOrder::Time) {
        Ok(()) => {},
        Err(error) => {
            return Err(ScanError::Git(error));
        },
    }
    match revwalk_push(&mut walk, start) {
        Ok(()) => {},
        Err(error) => {
            return Err(ScanError::Git(error));
        },
    }
    Ok(walk)
}

/// Collects the author times of the commits that the traversal yields, in
/// the order in which it yields them. A commit that cannot be read ends
/// the collection with its failure. No more than `usize::MAX` times are
/// collected.
///
/// The times are given only once the traversal is at its end, or as many
/// are collected as can be, and there is one time for each commit that
/// the traversal yielded. The collection fails only with a failure that
/// git reported.
fn collect_times<'repo>(repo: &'repo Repository, walk: &mut Revwalk<'repo>) -> (times: Result<
    Vec<i64>,
    ScanError,
>)
    ensures
        revwalk_order(*final(walk)) == revwalk_order(*old(walk)),
        revwalk_roots(*final(walk)) == revwalk_roots(*old(walk)),
        times matches Ok(found) ==> {
            &&& revwalk_yielded(*final(walk)).len() == revwalk_yielded(*old(walk)).len()
                + found@.len()
            &&& revwalk_ended(*final(walk)) || found@.len() == usize::MAX
        },
        times matches Err(error) ==> error is Git,
{
    let mut times: Vec<i64> = Vec::new();
    while times.len() < usize::MAX
        invariant
            revwalk_order(*walk) == revwalk_order(*old(walk)),
            revwalk_roots(*walk) == revwalk_roots(*old(walk)),
            revwalk_yielded(*walk).len() == revwalk_yielded(*old(walk)).len() + times@.len(),
        decreases usize::MAX - times.len(),
    {
        match revwalk_next(walk) {
            None => {
                return Ok(times);
            },
            Some(Err(error)) => {
                return Err(ScanError::Git(error));
            },
            Some(Ok(commit)) => match record_time(&mut times, author_seconds(repo, commit)) {
                Ok(()) => {},
                Err(error) => {
                    return Err(error);
                },
            },
        }
    }
    Ok(times)
}

/// Walks the ancestry of `start`, sorted by commit time, and gives the
/// author time of each commit in seconds since 1970.
///
/// The times are those of a traversal that was asked for the order of
/// commit time and was handed `start` alone, one for each commit that it
/// yielded, and they are given only once it is at its end. The walk fails
/// only with a failure that git reported: of setting up the traversal, of
/// a step of it, or of reading a commit.
pub fn walk_history(repo: &Repository, start: Oid) -> (times: Result<Vec<i64>, ScanError>)
    ensures
        history_from(start, times),
{
    let mut walk = match prepare_walk(repo, start) {
        Ok(walk) => walk,
        Err(error) => {
            return Err(error);
        },
    };
    let times = collect_times(repo, &mut walk);
    proof {
        if times is Ok {
            assert(walked_out(walk, start, times->Ok_0@.len()));
        }
    }
    times
}

/// How the reading of a history goes on once the remotes have been looked
/// at.
pub enum Plan {
    /// Nothing more is read: the history is the given one.
    Finished(Result<Vec<i64>, ScanError>),
    /// The history is read from the commits of the default branch.
    ReadCommits,
}

/// `plan` is how the reading goes on when the look at the remotes ended as
/// `hosted`: a repository that is hosted has an empty history, a failure
/// is the result, and only a repository that is not hosted is read.
pub open spec fn plan_of(hosted: Result<Option<String>, ScanError>, plan: Plan) -> bool {
    match hosted {
        Ok(Some(_)) => plan matches Plan::Finished(Ok(times)) && times@ == Seq::<i64>::empty(),
        Ok(None) => plan is ReadCommits,
        Err(error) => plan == Plan::Finished(Err(error)),
    }
}

/// Decides how the reading of a history goes on once the remotes have
/// been looked at.
pub fn plan_after_remotes(hosted: Result<Option<String>, ScanError>) -> (plan: Plan)
    ensures
        plan_of(hosted, plan),
{
    match hosted {
        Ok(Some(_)) => Plan::Finished(Ok(Vec::new())),
        Ok(None) => Plan::ReadCommits,
        Err(error) => Plan::Finished(Err(error)),
    }
}

/// A repository with a remote at the hosting provider has an empty
/// history, however many commits it holds: the remote is judged hosted by
/// the beginning of its URL alone, and a hosted repository is not read.
pub proof fn lemma_hosted_history_is_empty(url: String, plan: Plan)
    requires
        is_github(url@),
        plan_of(Ok(Some(url)), plan),
    ensures
        verdict_of(Ok(Some(url))) == RemoteVerdict::Hosted(url),
        plan matches Plan::Finished(Ok(times)) && times@.len() == 0,
{
}

/// The search for the default branch can end as `branch`.
pub open spec fn found_by_search(branch: Result<Oid, ScanError>) -> bool {
    exists|outcomes: Seq<Lookup>| #[trigger]
        search_from(Step::first(), outcomes) == Some(branch)
}

/// `times` is what reading the commits gives when the search for the
/// default branch ended as `branch`: the failure of the search, or the
/// history from the commit that it found.
pub open spec fn read_from(branch: Result<Oid, ScanError>, times: Result<Vec<i64>, ScanError>)
    -> bool {
    match branch {
        Ok(start) => history_from(start, times),
        Err(error) => times == Result::<Vec<i64>, ScanError>::Err(error),
    }
}

/// `times` is what the scan gives when the look at the remotes ended as
/// `hosted` and the reading was planned as `plan`: a finished plan gives
/// its result, and a plan to read gives what the default branch holds.
pub open spec fn follows_plan(
    hosted: Result<Option<String>, ScanError>,
    plan: Plan,
    times: Result<Vec<i64>, ScanError>,
) -> bool {
    &&& hosted matches Ok(Some(url)) ==> is_github(url@)
    &&& hosted matches Err(error) ==> error is Git
    &&& plan_of(hosted, plan)
    &&& plan matches Plan::Finished(result) ==> times == result
    &&& plan is ReadCommits ==> exists|branch: Result<Oid, ScanError>|
        #[trigger] found_by_search(branch) && read_from(branch, times)
}

/// `times` is what the scan of a repository can give: the remotes are
/// looked at first, and the commits are read only where no remote is at
/// the hosting provider.
pub open spec fn repo_scanned(times: Result<Vec<i64>, ScanError>) -> bool {
    exists|hosted: Result<Option<String>, ScanError>, plan: Plan| #[trigger]
        follows_plan(hosted, plan, times)
}

/// `times` is what the scan of a path gives when opening the path as a
/// repository ended as `opened`: the failure to open, or the scan of the
/// repository.
pub open spec fn scanned_after(
    opened: Result<Repository, git2::Error>,
    times: Result<Vec<i64>, ScanError>,
) -> bool {
    match opened {
        Ok(_) => repo_scanned(times),
        Err(error) => times == Result::<Vec<i64>, ScanError>::Err(ScanError::Git(error)),
    }
}

/// `times` is what the scan of a path can give: what follows from how
/// opening the path as a repository ended.
pub open spec fn path_scanned(times: Result<Vec<i64>, ScanError>) -> bool {
    exists|opened: Result<Repository, git2::Error>| #[trigger] scanned_after(opened, times)
}

/// Reads the history of an open repository: the author times of the
/// commits of its default branch, in seconds since 1970, sorted by commit
/// time.
///
/// Where a remote of the repository points at the hosting provider the
/// history is empty: the commits are known there already. The remotes are
/// looked at before anything else, so that holds of a repository without
/// commits too. Otherwise the result is the failure to find the default
/// branch, or the history from the commit found.
pub fn scan_repo(repo: &Repository) -> (times: Result<Vec<i64>, ScanError>)
    ensures
        repo_scanned(times),
{
    let hosted = hosted_elsewhere(repo);
    let ghost looked = hosted;
    let plan = plan_after_remotes(hosted);
    let ghost planned = plan;
    match plan {
        Plan::Finished(times) => {
            assert(follows_plan(looked, planned, times));
            times
        },
        Plan::ReadCommits => {
            let branch = get_default_branch(repo);
            let ghost searched = branch;
            let times = match branch {
                Ok(start) => walk_history(repo, start),
                Err(error) => Err(error),
            };
            proof {
                assert(found_by_search(searched));
                assert(read_from(searched, times));
                assert(follows_plan(looked, planned, times));
            }
            times
        },
    }
}

/// Reads the history of the repository at `repo`, which is a working
/// directory with a `.git` directory in it, a `.git` directory, or a bare
/// repository: whatever opens as a repository is scanned as one, and what
/// does not open fails with the failure to open it.
pub fn scan(repo: PathBuf) -> (times: Result<Vec<i64>, ScanError>)
    ensures
        path_scanned(times),
{
    let opened = open_repository(&repo);
    let ghost attempt = opened;
    let times = match opened {
        Ok(repository) => scan_repo(&repository),
        Err(error) => Err(ScanError::Git(error)),
    };
    proof {
        assert(scanned_after(attempt, times));
    }
    times
}

} // verus!
