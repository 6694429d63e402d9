//! The search for the commit that stands for a repository's default branch.
//!
//! Git records no default branch, so the search goes through a fixed list of
//! guesses. Each guess ends in one of three ways: it names a commit, it
//! finds nothing, or it fails. The first guess that does not find nothing
//! decides.

use vstd::prelude::*;
use vstd::string::StrSliceExecFns;
use vstd::string::StringExecFns;
use git2::Oid;
use git2::Repository;
use super::errors::ScanError;
use super::git::config_string;
use super::git::git_error_is_not_found;
use super::git::is_not_found;
use super::git::revparse_single;
use super::git::symbolic_target;
use super::text::after;
use super::text::has_prefix;
use super::text::skip_chars;
use super::text::starts_with;

verus! {

/// How one guess at the default branch ended.
pub enum Lookup {
    /// The guess names a commit.
    Resolved(Oid),
    /// The guess found nothing: the next guess is tried.
    NoMatch,
    /// The repository could not be read: the search is over.
    Failed(git2::Error),
}

/// The guesses at the default branch, in the order in which they are tried.
#[derive(Clone, Copy, Debug, PartialEq, Eq, Structural)]
pub enum Step {
    /// The branch that the `HEAD` of the remote `origin` points at.
    OriginHead,
    /// The branch that the `HEAD` of the remote `upstream` points at.
    UpstreamHead,
    /// The branch that the setting `init.defaultBranch` names.
    ConfiguredBranch,
    /// The branch `main`.
    Main,
    /// The branch `master`.
    Master,
    /// Whatever `HEAD` is.
    Head,
}

/// Where a guess looks.
pub enum Source {
    /// At the branch that the `HEAD` of the remote of this name points at.
    RemoteHead(&'static str),
    /// At the branch that the setting of this name holds.
    Setting(&'static str),
    /// At the revision of this name.
    Revision(&'static str),
}

/// Where the search stands after a guess.
pub enum Progress {
    /// The search is over, with the commit found or the reason why none
    /// was.
    Done(Result<Oid, ScanError>),
    /// The guess found nothing, and the given one is tried next.
    Try(Step),
}

impl Step {
    /// The guess that is tried first.
    pub open spec fn first() -> Step {
        Step::OriginHead
    }

    /// The place of the guess in the order, counted from the last.
    pub open spec fn left(self) -> nat {
        match self {
            Step::OriginHead => 5,
            Step::UpstreamHead => 4,
            Step::ConfiguredBranch => 3,
            Step::Main => 2,
            Step::Master => 1,
            Step::Head => 0,
        }
    }

    /// The guess that is tried when this one found nothing, if one is left.
    pub open spec fn following(self) -> Option<Step> {
        match self {
            Step::OriginHead => Some(Step::UpstreamHead),
            Step::UpstreamHead => Some(Step::ConfiguredBranch),
            Step::ConfiguredBranch => Some(Step::Main),
            Step::Main => Some(Step::Master),
            Step::Master => Some(Step::Head),
            Step::Head => None,
        }
    }

    /// Where the guess looks.
    pub open spec fn source_spec(self) -> Source {
        match self {
            Step::OriginHead => Source::RemoteHead("origin"),
            Step::UpstreamHead => Source::RemoteHead("upstream"),
            Step::ConfiguredBranch => Source::Setting("init.defaultBranch"),
            Step::Main => Source::Revision("refs/heads/main"),
            Step::Master => Source::Revision("refs/heads/master"),
            Step::Head => Source::Revision("HEAD"),
        }
    }

    /// Tells where the guess looks.
    pub fn source(self) -> (source: Source)
        ensures
            source == self.source_spec(),
    {
        match self {
            Step::OriginHead => Source::RemoteHead("origin"),
            Step::UpstreamHead => Source::RemoteHead("upstream"),
            Step::ConfiguredBranch => Source::Setting("init.defaultBranch"),
            Step::Main => Source::Revision("refs/heads/main"),
            Step::Master => Source::Revision("refs/heads/master"),
            Step::Head => Source::Revision("HEAD"),
        }
    }

    /// Where the search stands once this guess has ended as `outcome`.
    pub open spec fn progress(self, outcome: Lookup) -> Progress {
        match outcome {
            Lookup::Resolved(commit) => Progress::Done(Ok(commit)),
            Lookup::Failed(error) => Progress::Done(Err(ScanError::Git(error))),
            Lookup::NoMatch => match self.following() {
                Some(step) => Progress::Try(step),
                None => Progress::Done(Err(ScanError::NoDefaultBranch)),
            },
        }
    }

    /// Decides how the search goes on once this guess has ended as
    /// `outcome`.
    pub fn advance(self, outcome: Lookup) -> (progress: Progress)
        ensures
            progress == self.progress(outcome),
    {
        match outcome {
            Lookup::Resolved(commit) => Progress::Done(Ok(commit)),
            Lookup::Failed(error) => Progress::Done(Err(ScanError::Git(error))),
            Lookup::NoMatch => match self {
                Step::OriginHead => Progress::Try(Step::UpstreamHead),
                Step::UpstreamHead => Progress::Try(Step::ConfiguredBranch),
                Step::ConfiguredBranch => Progress::Try(Step::Main),
                Step::Main => Progress::Try(Step::Master),
                Step::Master => Progress::Try(Step::Head),
                Step::Head => Progress::Done(Err(ScanError::NoDefaultBranch)),
            },
        }
    }
}

/// Where a search that starts at `step` ends, when its guesses end as
/// `outcomes` say, one after the other. `None` when the outcomes run out
/// before the search is over.
pub open spec fn search_from(step: Step, outcomes: Seq<Lookup>) -> Option<Result<Oid, ScanError>>
    decreases outcomes.len(),
{
    if outcomes.len() == 0 {
        None
    } else {
        match step.progress(outcomes[0]) {
            Progress::Done(result) => Some(result),
            Progress::Try(next) => search_from(next, outcomes.skip(1)),
        }
    }
}

/// A guess that names a commit ends the search with that commit, whatever
/// the later guesses would have found.
pub proof fn lemma_first_resolved_decides(step: Step, commit: Oid, later: Seq<Lookup>)
    ensures
        search_from(step, seq![Lookup::Resolved(commit)] + later) == Some(
            Result::<Oid, ScanError>::Ok(commit),
        ),
{
    let outcomes = seq![Lookup::Resolved(commit)] + later;
    assert(outcomes[0] == Lookup::Resolved(commit));
}

/// A guess that finds nothing hands the search to the guess that follows.
pub proof fn lemma_no_match_falls_through(step: Step, later: Seq<Lookup>)
    requires
        step.following() is Some,
    ensures
        search_from(step, seq![Lookup::NoMatch] + later) == search_from(
            step.following()->0,
            later,
        ),
{
    let outcomes = seq![Lookup::NoMatch] + later;
    assert(outcomes[0] == Lookup::NoMatch);
    assert(outcomes.skip(1) =~= later);
}

/// A guess that fails ends the search with the failure.
pub proof fn lemma_failure_aborts(step: Step, error: git2::Error, later: Seq<Lookup>)
    ensures
        search_from(step, seq![Lookup::Failed(error)] + later) == Some(
            Result::<Oid, ScanError>::Err(ScanError::Git(error)),
        ),
{
    let outcomes = seq![Lookup::Failed(error)] + later;
    assert(outcomes[0] == Lookup::Failed(error));
}

/// When all six guesses find nothing, the search ends without a default
/// branch.
pub proof fn lemma_nothing_found(outcomes: Seq<Lookup>)
    requires
        outcomes.len() == 6,
        forall|i: int| 0 <= i < 6 ==> outcomes[i] is NoMatch,
    ensures
        search_from(Step::first(), outcomes) == Some(
            Result::<Oid, ScanError>::Err(ScanError::NoDefaultBranch),
        ),
{
    reveal_with_fuel(search_from, 7);
    let o1 = outcomes.skip(1);
    let o2 = o1.skip(1);
    let o3 = o2.skip(1);
    let o4 = o3.skip(1);
    let o5 = o4.skip(1);
    assert(o1[0] == outcomes[1]);
    assert(o2[0] == outcomes[2]);
    assert(o3[0] == outcomes[3]);
    assert(o4[0] == outcomes[4]);
    assert(o5[0] == outcomes[5]);
}

/// What is known of a name once its lookup has ended as `found`: a lookup
/// that fails because the name does not exist is an answer, not a failure.
pub open spec fn tolerated<T>(found: Result<T, git2::Error>) -> Result<Option<T>, git2::Error> {
    match found {
        Ok(value) => Ok(Some(value)),
        Err(error) => if git_error_is_not_found(error) {
            Ok(None)
        } else {
            Err(error)
        },
    }
}

/// Turns the failure of a lookup into `None` where it only says that the
/// name does not exist.
pub fn tolerate_missing<T>(found: Result<T, git2::Error>) -> (known: Result<Option<T>, git2::Error>)
    ensures
        known == tolerated(found),
{
    match found {
        Ok(value) => Ok(Some(value)),
        Err(error) => {
            if is_not_found(&error) {
                Ok(None)
            } else {
                Err(error)
            }
        },
    }
}

/// How a guess ends that has looked up a revision.
pub open spec fn lookup_of(known: Result<Option<Oid>, git2::Error>) -> Lookup {
    match known {
        Ok(Some(commit)) => Lookup::Resolved(commit),
        Ok(None) => Lookup::NoMatch,
        Err(error) => Lookup::Failed(error),
    }
}

/// Reads the end of a guess from what a lookup of a revision gave.
pub fn conclude(known: Result<Option<Oid>, git2::Error>) -> (outcome: Lookup)
    ensures
        outcome == lookup_of(known),
{
    match known {
        Ok(Some(commit)) => Lookup::Resolved(commit),
        Ok(None) => Lookup::NoMatch,
        Err(error) => Lookup::Failed(error),
    }
}

/// The name of the reference that holds the `HEAD` of a remote.
pub open spec fn remote_head_name(remote: Seq<char>) -> Seq<char> {
    "refs/remotes/"@ + remote + "/HEAD"@
}

/// What the name of every branch of a remote begins with.
pub open spec fn remote_branch_prefix(remote: Seq<char>) -> Seq<char> {
    "refs/remotes/"@ + remote + "/"@
}

/// The branch that the target of a remote's `HEAD` names: what follows
/// `refs/remotes/<remote>/` in it. A target of any other shape names none.
pub open spec fn branch_of_target(target: Seq<char>, remote: Seq<char>) -> Option<Seq<char>> {
    if has_prefix(target, remote_branch_prefix(remote)) {
        Some(after(target, remote_branch_prefix(remote).len()))
    } else {
        None
    }
}

/// Extracts the branch from the target of a remote's `HEAD`.
pub fn local_branch_of(target: &str, remote: &str) -> (branch: Option<String>)
    ensures
        branch is Some <==> branch_of_target(target@, remote@) is Some,
        branch matches Some(name) ==> name@ == branch_of_target(target@, remote@)->0,
{
    let prefix = String::from_str("refs/remotes/").concat(remote).concat("/");
    if starts_with(target, prefix.as_str()) {
        Some(skip_chars(target, prefix.as_str().unicode_len()))
    } else {
        None
    }
}

/// `branch` is what the lookup of a remote's `HEAD` says of the remote's
/// branch, when the lookup ended as `found`.
pub open spec fn head_branch_of(
    found: Result<Option<String>, git2::Error>,
    remote: Seq<char>,
    branch: Result<Option<String>, git2::Error>,
) -> bool {
    match found {
        Ok(Some(target)) => match branch_of_target(target@, remote) {
            Some(name) => branch matches Ok(Some(text)) && text@ == name,
            None => branch == Result::<Option<String>, git2::Error>::Ok(None),
        },
        Ok(None) => branch == Result::<Option<String>, git2::Error>::Ok(None),
        Err(error) => if git_error_is_not_found(error) {
            branch == Result::<Option<String>, git2::Error>::Ok(None)
        } else {
            branch == Result::<Option<String>, git2::Error>::Err(error)
        },
    }
}

/// Reads the branch of a remote from what the lookup of the remote's
/// `HEAD` gave: the symbolic target of the reference, `None` where the
/// reference is not symbolic, or the failure of the lookup.
pub fn head_branch(found: Result<Option<String>, git2::Error>, remote: &str) -> (branch: Result<
    Option<String>,
    git2::Error,
>)
    ensures
        head_branch_of(found, remote@, branch),
{
    match found {
        Ok(Some(target)) => Ok(local_branch_of(target.as_str(), remote)),
        Ok(None) => Ok(None),
        Err(error) => {
            if is_not_found(&error) {
                Ok(None)
            } else {
                Err(error)
            }
        },
    }
}

/// Makes the name of the reference that holds the `HEAD` of a remote.
pub fn remote_head_ref(remote: &str) -> (name: String)
    ensures
        name@ == remote_head_name(remote@),
{
    String::from_str("refs/remotes/").concat(remote).concat("/HEAD")
}

/// Looks up the branch that the `HEAD` of a remote points at.
///
/// `Ok(None)` where the remote has no `HEAD`, where it is not symbolic, and
/// where its target is not a branch of that remote.
pub fn remote_head_to_local_branch(repo: &Repository, remote: &str) -> (branch: Result<
    Option<String>,
    git2::Error,
>)
    ensures
        branch matches Err(error) ==> !git_error_is_not_found(error),
{
    let found = symbolic_target(repo, remote_head_ref(remote).as_str());
    head_branch(found, remote)
}

/// Looks up the commit that a revision names; `Ok(None)` where nothing of
/// that name exists.
pub fn ref_to_oid(repo: &Repository, name: &str) -> (commit: Result<Option<Oid>, git2::Error>)
    ensures
        commit matches Err(error) ==> !git_error_is_not_found(error),
{
    tolerate_missing(revparse_single(repo, name))
}

/// The branch that a setting names, given how reading the configuration
/// and the setting in it ended: a setting that is not there names none,
/// and neither does a configuration that is not there.
pub open spec fn setting_of(read: Result<Result<String, git2::Error>, git2::Error>) -> Result<
    Option<String>,
    git2::Error,
> {
    match read {
        Ok(setting) => tolerated(setting),
        Err(error) => tolerated(Result::<String, git2::Error>::Err(error)),
    }
}

/// Reads the branch that a setting names from how reading it ended.
pub fn setting_branch(read: Result<Result<String, git2::Error>, git2::Error>) -> (branch: Result<
    Option<String>,
    git2::Error,
>)
    ensures
        branch == setting_of(read),
{
    match read {
        Ok(setting) => tolerate_missing(setting),
        Err(error) => tolerate_missing(Err(error)),
    }
}

/// Looks up the commit of a branch whose name a lookup has given: no name
/// finds nothing, a failure stays one, and a name is resolved as a
/// revision.
fn attempt_branch(repo: &Repository, branch: Result<Option<String>, git2::Error>) -> (outcome:
    Lookup)
    ensures
        branch is Err ==> outcome == Lookup::Failed(branch->Err_0),
        branch == Result::<Option<String>, git2::Error>::Ok(None) ==> outcome is NoMatch,
        branch is Ok ==> (outcome matches Lookup::Failed(error) ==> !git_error_is_not_found(error)),
{
    match branch {
        Ok(Some(name)) => conclude(ref_to_oid(repo, name.as_str())),
        Ok(None) => Lookup::NoMatch,
        Err(error) => Lookup::Failed(error),
    }
}

/// Makes one guess at the default branch: looks where the guess says, and
/// where that names a branch, resolves the branch as a revision.
///
/// What is not there is no failure: a reference, a setting or a revision
/// that does not exist makes the guess find nothing, and the guess fails
/// only with an error of another kind.
pub fn attempt(repo: &Repository, step: Step) -> (outcome: Lookup)
    ensures
        outcome matches Lookup::Failed(error) ==> !git_error_is_not_found(error),
{
    match step.source() {
        Source::RemoteHead(remote) => attempt_branch(
            repo,
            remote_head_to_local_branch(repo, remote),
        ),
        Source::Setting(key) => attempt_branch(repo, setting_branch(config_string(repo, key))),
        Source::Revision(name) => conclude(ref_to_oid(repo, name)),
    }
}

/// A search that starts with the first guess, and whose guesses have
/// found nothing so far, goes on from `step` as a new search would.
pub open spec fn resumes_at(found_nothing: Seq<Lookup>, step: Step) -> bool {
    forall|rest: Seq<Lookup>| #[trigger]
        search_from(Step::first(), found_nothing + rest) == search_from(step, rest)
}

/// Finds the commit of the default branch of a repository.
///
/// The guesses are made in the order of `Step`. The first that names a
/// commit gives the result; a guess that finds nothing hands over to the
/// next; a guess that fails ends the search with its failure. When the last
/// guess finds nothing, the result is `ScanError::NoDefaultBranch`.
pub fn get_default_branch(repo: &Repository) -> (commit: Result<Oid, ScanError>)
    ensures
        exists|outcomes: Seq<Lookup>| search_from(Step::first(), outcomes) == Some(commit),
        commit matches Err(ScanError::Git(error)) ==> !git_error_is_not_found(error),
{
    let mut step = Step::OriginHead;
    let ghost mut found_nothing: Seq<Lookup> = Seq::empty();
    proof {
        assert forall|rest: Seq<Lookup>| #[trigger]
            search_from(Step::first(), found_nothing + rest) == search_from(step, rest) by {
            assert(found_nothing + rest =~= rest);
        }
    }
    loop
        invariant
            resumes_at(found_nothing, step),
        decreases step.left(),
    {
        let outcome = attempt(repo, step);
        let ghost last = seq![outcome];
        proof {
            assert(last[0] == outcome);
        }
        match step.advance(outcome) {
            Progress::Done(result) => {
                proof {
                    assert(search_from(Step::first(), found_nothing + last) == search_from(
                        step,
                        last,
                    ));
                }
                return result;
            },
            Progress::Try(next) => {
                proof {
                    assert forall|rest: Seq<Lookup>| #[trigger]
                        search_from(Step::first(), (found_nothing + last) + rest) == search_from(
                            next,
                            rest,
                        ) by {
                        assert((found_nothing + last) + rest =~= found_nothing + (last + rest));
                        assert((last + rest)[0] == outcome);
                        assert((last + rest).skip(1) =~= rest);
                        assert(search_from(Step::first(), found_nothing + (last + rest))
                            == search_from(step, last + rest));
                    }
                    found_nothing = found_nothing + last;
                }
                step = next;
            },
        }
    }
}

} // verus!
