//! The scan of all configured trees: every repository found is read, and
//! what fails is set aside without stopping the scan.

use vstd::prelude::*;
use std::path::PathBuf;
use super::config::Config;
use super::config::TreeConfig;
use super::discovery::all_passed_over;
use super::discovery::ConfigRepoIter;
use super::discovery::Discovery;
use super::discovery::Sighting;
use super::errors::RepoIterError;
use super::errors::ScanError;
use super::paths::lies_under;
use super::paths::lossy_text;
use super::paths::path_text;
use super::results::ScanResult;
use super::scan::path_scanned;
use super::scan::repo_scanned;
use super::scan::scan;
use super::scan::scan_repo;

verus! {

/// What kept one repository out of the result.
#[derive(Debug)]
pub enum ScanFailure {
    /// The search failed at some entry of a tree.
    Discovery(RepoIterError),
    /// The repository of the given name was found, but its history could
    /// not be read.
    History(String, ScanError),
}

impl ScanFailure {
    /// The message of the failure, as a sequence of characters, where the
    /// failure itself settles it.
    pub open spec fn message_spec(self) -> Option<Seq<char>> {
        match self {
            ScanFailure::Discovery(error) => error.message_spec(),
            ScanFailure::History(_, error) => Some(error.message_spec()),
        }
    }

    /// The message of the failure: that of the error behind it.
    pub fn message(&self) -> (text: String)
        ensures
            self.message_spec() matches Some(message) ==> text@ == message,
    {
        match self {
            ScanFailure::Discovery(error) => error.message(),
            ScanFailure::History(_, error) => error.message(),
        }
    }
}

/// How the scan of one item of the search ended: the name and history of a
/// repository, or what kept it out of the result.
pub type Scanned = Result<(String, Vec<i64>), ScanFailure>;

/// What a scan has gathered, as plain values: the histories by name, and
/// the failures in the order in which they were met.
pub struct Tally {
    /// The histories that were read, by the name of the repository.
    pub repos: Map<Seq<char>, Seq<i64>>,
    /// What was set aside.
    pub failures: Seq<ScanFailure>,
}

impl Tally {
    /// Nothing gathered yet.
    pub open spec fn empty() -> Tally {
        Tally { repos: Map::empty(), failures: Seq::empty() }
    }

    /// The tally with one more outcome: a history is put under its name, a
    /// failure is added to the failures, and neither touches the other.
    pub open spec fn with(self, outcome: Scanned) -> Tally {
        match outcome {
            Ok((name, times)) => Tally {
                repos: self.repos.insert(name@, times@),
                failures: self.failures,
            },
            Err(failure) => Tally { repos: self.repos, failures: self.failures.push(failure) },
        }
    }

    /// The tally with the outcomes added one after the other.
    pub open spec fn with_all(self, outcomes: Seq<Scanned>) -> Tally
        decreases outcomes.len(),
    {
        if outcomes.len() == 0 {
            self
        } else {
            self.with_all(outcomes.drop_last()).with(outcomes.last())
        }
    }
}

/// The number of outcomes that are failures.
pub open spec fn failed_count(outcomes: Seq<Scanned>) -> nat
    decreases outcomes.len(),
{
    if outcomes.len() == 0 {
        0
    } else {
        failed_count(outcomes.drop_last()) + if outcomes.last() is Err {
            1nat
        } else {
            0nat
        }
    }
}

/// A scan sets aside exactly the items that failed: there is one failure
/// for each, whatever the other items are, and a name is in the result
/// exactly when an item with that name was read.
pub proof fn lemma_failures_are_set_aside(outcomes: Seq<Scanned>)
    ensures
        Tally::empty().with_all(outcomes).failures.len() == failed_count(outcomes),
        Tally::empty().with_all(outcomes).repos.dom().finite(),
        Tally::empty().with_all(outcomes).repos.len() <= outcomes.len() - failed_count(outcomes),
        forall|name: Seq<char>|
            Tally::empty().with_all(outcomes).repos.dom().contains(name) <==> exists|i: int|
                0 <= i < outcomes.len() && (#[trigger] outcomes[i]) is Ok && outcomes[i]->Ok_0.0@
                    == name,
    decreases outcomes.len(),
{
    if outcomes.len() > 0 {
        let front = outcomes.drop_last();
        lemma_failures_are_set_aside(front);
        let before = Tally::empty().with_all(front);
        let after = Tally::empty().with_all(outcomes);
        assert forall|name: Seq<char>| after.repos.dom().contains(name) <==> exists|i: int|
            0 <= i < outcomes.len() && (#[trigger] outcomes[i]) is Ok && outcomes[i]->Ok_0.0@
                == name by {
            if after.repos.dom().contains(name) {
                if before.repos.dom().contains(name) {
                    let i = choose|i: int|
                        0 <= i < front.len() && (#[trigger] front[i]) is Ok && front[i]->Ok_0.0@
                            == name;
                    assert(outcomes[i] == front[i]);
                } else {
                    assert(outcomes[outcomes.len() - 1] is Ok);
                }
            }
            if exists|i: int|
                0 <= i < outcomes.len() && (#[trigger] outcomes[i]) is Ok && outcomes[i]->Ok_0.0@
                    == name {
                let i = choose|i: int|
                    0 <= i < outcomes.len() && (#[trigger] outcomes[i]) is Ok
                        && outcomes[i]->Ok_0.0@ == name;
                if i < front.len() {
                    assert(front[i] == outcomes[i]);
                }
            }
        }
    }
}

/// No two outcomes that are histories go by the same name.
pub open spec fn names_differ(outcomes: Seq<Scanned>) -> bool {
    forall|i: int, j: int|
        0 <= i < j < outcomes.len() && (#[trigger] outcomes[i]) is Ok && (
        #[trigger] outcomes[j]) is Ok ==> outcomes[i]->Ok_0.0@ != outcomes[j]->Ok_0.0@
}

/// Where the repositories go by different names, the result holds one
/// entry for each that was read: of three repositories of which one fails,
/// two are in the result and one failure is set aside.
pub proof fn lemma_each_history_is_kept(outcomes: Seq<Scanned>)
    requires
        names_differ(outcomes),
    ensures
        Tally::empty().with_all(outcomes).repos.dom().finite(),
        Tally::empty().with_all(outcomes).repos.len() + failed_count(outcomes) == outcomes.len(),
        Tally::empty().with_all(outcomes).failures.len() == failed_count(outcomes),
    decreases outcomes.len(),
{
    lemma_failures_are_set_aside(outcomes);
    if outcomes.len() > 0 {
        let front = outcomes.drop_last();
        assert(names_differ(front)) by {
            assert forall|i: int, j: int|
                0 <= i < j < front.len() && (#[trigger] front[i]) is Ok && (
                #[trigger] front[j]) is Ok implies front[i]->Ok_0.0@ != front[j]->Ok_0.0@ by {
                assert(front[i] == outcomes[i]);
                assert(front[j] == outcomes[j]);
            }
        }
        lemma_each_history_is_kept(front);
        lemma_failures_are_set_aside(front);
        if outcomes.last() is Ok {
            let name = outcomes.last()->Ok_0.0@;
            if Tally::empty().with_all(front).repos.dom().contains(name) {
                let i = choose|i: int|
                    0 <= i < front.len() && (#[trigger] front[i]) is Ok && front[i]->Ok_0.0@
                        == name;
                assert(front[i] == outcomes[i]);
                assert(outcomes[outcomes.len() - 1] is Ok);
            }
        }
    }
}

/// The last history that is read under a name is the one that the result
/// holds under it.
pub proof fn lemma_last_history_wins(outcomes: Seq<Scanned>, name: String, times: Vec<i64>)
    ensures
        Tally::empty().with_all(outcomes.push(Ok((name, times)))).repos[name@] == times@,
{
    let all = outcomes.push(Ok((name, times)));
    assert(all.drop_last() =~= outcomes);
}

/// What a scan gives back: the histories that were read, and what was set
/// aside on the way.
pub struct ScanReport {
    /// The commit times of each repository that was read, by name.
    pub repos: ScanResult,
    /// What kept repositories out of the result, in the order met.
    pub failures: Vec<ScanFailure>,
}

impl ScanReport {
    /// The result is well formed.
    pub open spec fn wf(&self) -> bool {
        self.repos.wf()
    }

    /// What the report holds, as plain values.
    pub open spec fn tally(&self) -> Tally {
        Tally { repos: self.repos@, failures: self.failures@ }
    }

    /// A report of a scan that has met nothing yet.
    pub fn new() -> (report: ScanReport)
        ensures
            report.wf(),
            report.tally() == Tally::empty(),
    {
        ScanReport { repos: ScanResult::new(), failures: Vec::new() }
    }

    /// Takes up the outcome of one item: a history goes into the result
    /// under its name, in place of an earlier one of that name; a failure
    /// is set aside and leaves the result as it is.
    pub fn record(&mut self, outcome: Scanned)
        requires
            old(self).wf(),
        ensures
            final(self).wf(),
            final(self).tally() == old(self).tally().with(outcome),
    {
        match outcome {
            Ok((name, times)) => {
                self.repos.insert(name, times);
            },
            Err(failure) => {
                self.failures.push(failure);
            },
        }
    }
}

/// What becomes of a repository that was found under `name`, once its
/// history has been read as `history`.
pub open spec fn settled(name: String, history: Result<Vec<i64>, ScanError>) -> Scanned {
    match history {
        Ok(times) => Ok((name, times)),
        Err(error) => Err(ScanFailure::History(name, error)),
    }
}

/// Joins the name of a repository with the outcome of reading its
/// history.
pub fn settle(name: String, history: Result<Vec<i64>, ScanError>) -> (scanned: Scanned)
    ensures
        scanned == settled(name, history),
{
    match history {
        Ok(times) => Ok((name, times)),
        Err(error) => Err(ScanFailure::History(name, error)),
    }
}

/// `name` is a name that one of the trees of the configuration gives to
/// something that lies under its root.
pub open spec fn named_in(config: Config, name: Seq<char>) -> bool {
    exists|k: int, path: PathBuf|
        0 <= k < config.repos@.len() && lies_under(path, config.repos@[k].root) && name
            == #[trigger] config.repos@[k].name_at(path)
}

/// The outcome is a failure of the search, or that of a repository whose
/// name one of the trees of the configuration gives.
pub open spec fn found_in(config: Config, outcome: Scanned) -> bool {
    match outcome {
        Ok((name, _)) => named_in(config, name@),
        Err(ScanFailure::History(name, _)) => named_in(config, name@),
        Err(ScanFailure::Discovery(_)) => true,
    }
}

/// `outcome` is what the scan makes of an item of the search. A failure of
/// the search is set aside as it is. A repository is read, and its history,
/// or the failure to read it, goes by the name that the search gave it.
pub open spec fn scanned_item(item: Discovery, outcome: Scanned) -> bool {
    match item {
        Err(error) => outcome == Scanned::Err(ScanFailure::Discovery(error)),
        Ok((name, _)) => exists|history: Result<Vec<i64>, ScanError>|
            repo_scanned(history) && outcome == #[trigger] settled(name, history),
    }
}

/// `outcome` is what the scan makes of a sighting that the search of
/// `tree` reported: of the item that the sighting is reported as.
pub open spec fn outcome_of(tree: TreeConfig, sighting: Sighting, outcome: Scanned) -> bool {
    exists|item: Discovery| #[trigger]
        sighting.reported_as(tree, item) && scanned_item(item, outcome)
}

/// `tally` is what the scan gathers from a search of the trees of `config`
/// that has run to its end: one outcome for each sighting that the search
/// reported, tree after tree and in order, taken up one after the other.
pub open spec fn gathered(
    search: ConfigRepoIter<'_>,
    outcomes: Seq<Scanned>,
    config: Config,
    tally: Tally,
) -> bool {
    &&& search.wf()
    &&& search.config() == config
    &&& search.finished()
    &&& outcomes.len() == search.reported().len()
    &&& forall|i: int|
        0 <= i < outcomes.len() ==> outcome_of(
            search.reported()[i].0,
            search.reported()[i].1,
            #[trigger] outcomes[i],
        )
    &&& tally == Tally::empty().with_all(outcomes)
}

/// A scan whose search comes upon no repository, and upon no failure,
/// gathers nothing: a configuration whose trees hold no repository gives an
/// empty result, with nothing set aside.
pub proof fn lemma_no_repository_empty_report(
    search: ConfigRepoIter<'_>,
    outcomes: Seq<Scanned>,
    config: Config,
    tally: Tally,
)
    requires
        gathered(search, outcomes, config, tally),
        forall|k: int|
            0 <= k < search.started() ==> all_passed_over(
                #[trigger] search.seen_in(k),
                0,
                search.seen_in(k).len() as int,
            ),
    ensures
        tally == Tally::empty(),
{
    search.lemma_nothing_reported();
}

/// Reads the history of every repository that the search of the
/// configured trees finds, and gathers the histories by name.
///
/// What fails is set aside: a failure of the search, and a failure to read
/// the history of a repository that was found, each add one entry to the
/// failures and leave the other repositories untouched. The scan itself
/// does not fail. A configuration without trees gives an empty report.
///
/// The report is gathered from a search of the trees that has run to its
/// end, with one outcome for each sighting that the search reported. Every
/// repository that the report speaks of goes by a name that a tree of the
/// configuration gives to a path under its root.
pub fn scan_config(config: &Config) -> (report: ScanReport)
    ensures
        report.wf(),
        config.repos@.len() == 0 ==> report.tally() == Tally::empty(),
        exists|search: ConfigRepoIter<'_>, outcomes: Seq<Scanned>| #[trigger]
            gathered(search, outcomes, *config, report.tally()),
        exists|outcomes: Seq<Scanned>|
            {
                &&& forall|i: int|
                    0 <= i < outcomes.len() ==> found_in(*config, #[trigger] outcomes[i])
                &&& report.tally() == Tally::empty().with_all(outcomes)
            },
{
    let mut report = ScanReport::new();
    let mut iter = config.repo_iter();
    let ghost mut outcomes: Seq<Scanned> = Seq::empty();
    proof {
        assert(iter.seen_in(0).len() == 0);
        iter.lemma_nothing_reported();
    }
    loop
        invariant
            iter.wf(),
            report.wf(),
            iter.config() == *config,
            config.repos@.len() == 0 ==> iter.finished() && outcomes.len() == 0,
            outcomes.len() == iter.reported().len(),
            forall|i: int|
                0 <= i < outcomes.len() ==> outcome_of(
                    iter.reported()[i].0,
                    iter.reported()[i].1,
                    #[trigger] outcomes[i],
                ),
            forall|i: int| 0 <= i < outcomes.len() ==> found_in(*config, #[trigger] outcomes[i]),
            report.tally() == Tally::empty().with_all(outcomes),
        decreases iter.remaining(),
    {
        let ghost reported = iter.reported();
        let next = iter.next();
        let ghost given = next;
        let scanned = match next {
            None => {
                proof {
                    assert(gathered(iter, outcomes, *config, report.tally()));
                }
                return report;
            },
            Some(Err(error)) => Err(ScanFailure::Discovery(error)),
            Some(Ok((name, repository))) => {
                proof {
                    let k = iter.started() - 1;
                    let sighting = choose|sighting: Sighting|
                        {
                            &&& sighting.within(config.repos@[k].root)
                            &&& #[trigger] sighting.reported_as(
                                config.repos@[k],
                                Discovery::Ok((name, repository)),
                            )
                        };
                    let path = sighting->Directory_0;
                    assert(name@ == config.repos@[k].name_at(path));
                    assert(named_in(*config, name@));
                }
                let history = scan_repo(&repository);
                let ghost read = history;
                let scanned = settle(name, history);
                proof {
                    assert(scanned == settled(name, read));
                }
                scanned
            },
        };
        proof {
            let k = iter.started() - 1;
            let last = iter.seen_in(k).last();
            assert(last.reported_as(config.repos@[k], given->0));
            assert(scanned_item(given->0, scanned));
            assert(outcome_of(config.repos@[k], last, scanned));
            assert(iter.reported() == reported.push((config.repos@[k], last)));
            assert(outcomes.push(scanned).drop_last() =~= outcomes);
            outcomes = outcomes.push(scanned);
            assert forall|i: int| 0 <= i < outcomes.len() implies outcome_of(
                iter.reported()[i].0,
                iter.reported()[i].1,
                #[trigger] outcomes[i],
            ) by {
                if i < reported.len() {
                    assert(iter.reported()[i] == reported[i]);
                }
            }
        }
        report.record(scanned);
    }
}

/// The outcome is that of the repository of the given name.
pub open spec fn named(outcome: Scanned, name: Seq<char>) -> bool {
    match outcome {
        Ok((found, _)) => found@ == name,
        Err(ScanFailure::History(found, _)) => found@ == name,
        Err(ScanFailure::Discovery(_)) => false,
    }
}

/// `outcome` is what the scan makes of a path: the scan of the path,
/// under the text of the path as its name.
pub open spec fn path_outcome(path: PathBuf, outcome: Scanned) -> bool {
    exists|name: String, history: Result<Vec<i64>, ScanError>|
        name@ == path_text(path) && path_scanned(history) && outcome == #[trigger] settled(
            name,
            history,
        )
}

/// An outcome of a path goes by the text of the path.
pub proof fn lemma_path_outcome_is_named(path: PathBuf, outcome: Scanned)
    requires
        path_outcome(path, outcome),
    ensures
        named(outcome, path_text(path)),
{
}

/// Reads the history of the repository at each of the paths, and gathers
/// the histories under the text of their paths.
///
/// Each path gives one outcome, in the order of the paths: its history, or
/// the failure to open the repository or to read it. A failure is set
/// aside and does not stop the scan.
pub fn scan_paths(paths: &Vec<PathBuf>) -> (report: ScanReport)
    ensures
        report.wf(),
        exists|outcomes: Seq<Scanned>|
            {
                &&& outcomes.len() == paths@.len()
                &&& forall|i: int|
                    0 <= i < outcomes.len() ==> path_outcome(paths@[i], #[trigger] outcomes[i])
                &&& report.tally() == Tally::empty().with_all(outcomes)
            },
{
    let mut report = ScanReport::new();
    let ghost mut outcomes: Seq<Scanned> = Seq::empty();
    let mut i: usize = 0;
    while i < paths.len()
        invariant
            i <= paths@.len(),
            report.wf(),
            outcomes.len() == i,
            forall|k: int| 0 <= k < i ==> path_outcome(paths@[k], #[trigger] outcomes[k]),
            report.tally() == Tally::empty().with_all(outcomes),
        decreases paths@.len() - i,
    {
        let name = lossy_text(&paths[i]);
        let history = scan(paths[i].clone());
        let ghost read = history;
        let scanned = settle(name, history);
        proof {
            assert(scanned == settled(name, read));
            assert(path_outcome(paths@[i as int], scanned));
            assert(outcomes.push(scanned).drop_last() =~= outcomes);
            outcomes = outcomes.push(scanned);
        }
        report.record(scanned);
        i = i + 1;
    }
    report
}

} // verus!
