//! The search for repositories in the configured trees.
//!
//! A tree is walked depth first. Each directory that the walk comes upon is
//! opened as a repository. What opens is reported and not gone into; what is
//! no repository is gone into without a word; what fails to open for another
//! reason is reported and not gone into. The trees of a configuration are
//! searched one after the other.

use vstd::prelude::*;
use std::path::PathBuf;
use git2::Repository;
use super::config::Config;
use super::config::TreeConfig;
use super::errors::RepoIterError;
use super::git::git_error_is_not_found;
use super::git::is_not_found;
use super::git::open_repository;
use super::naming::get_name;
use super::naming::nameable;
use super::paths::lies_under;
use super::paths::path_text;
use super::walk::entry_path;
use super::walk::start_walk;
use super::walk::walk_closed;
use super::walk::walk_ended;
use super::walk::walk_follows_links;
use super::walk::walk_yielded;
use super::walk::walk_root;
use super::walk::walker_next;
use super::walk::walker_skip_current_dir;
use super::walk::DirWalker;

verus! {

/// What the search does with one directory of the walk.
pub enum Visit {
    /// The directory is no repository: the walk goes on into it.
    Descend,
    /// The directory is a repository: it is reported under the name, and
    /// the walk does not go into it.
    Found(String, Repository),
    /// The directory could not be opened: the failure is reported, and
    /// the walk goes on beside the directory, not into it.
    Failed(git2::Error),
}

/// What the search does with the directory at `path`, given how the
/// attempt to open it as a repository ended.
pub open spec fn visit_of(
    tree: TreeConfig,
    path: PathBuf,
    opened: Result<Repository, git2::Error>,
    visit: Visit,
) -> bool {
    match opened {
        Ok(repository) => visit matches Visit::Found(name, found) && name@ == tree.name_at(path)
            && found == repository,
        Err(error) => if git_error_is_not_found(error) {
            visit is Descend
        } else {
            visit == Visit::Failed(error)
        },
    }
}

/// Decides what the search does with the directory at `path`, given how
/// the attempt to open it as a repository ended.
pub fn visit_directory(
    tree: &TreeConfig,
    path: &PathBuf,
    opened: Result<Repository, git2::Error>,
) -> (visit: Visit)
    requires
        nameable(tree.root, tree.replacement(), *path),
    ensures
        visit_of(*tree, *path, opened, visit),
{
    match opened {
        Ok(repository) => {
            let replace_root = match &tree.replace_root {
                Some(text) => Some(text.as_str()),
                None => None,
            };
            Visit::Found(get_name(&tree.root, replace_root, path), repository)
        },
        Err(error) => {
            if is_not_found(&error) {
                Visit::Descend
            } else {
                Visit::Failed(error)
            }
        },
    }
}

/// What the walk comes upon: an entry that cannot be read, or a directory
/// together with the outcome of opening it as a repository.
pub enum Sighting {
    /// The walk failed to read an entry of the tree.
    Unreadable(walkdir::Error),
    /// The walk reached the directory at the path, and opening it as a
    /// repository ended as given.
    Directory(PathBuf, Result<Repository, git2::Error>),
}

/// An item of the search: a repository with its name, or a failure.
pub type Discovery = Result<(String, Repository), RepoIterError>;

impl Sighting {
    /// The directory is no repository, so nothing is reported of it.
    pub open spec fn passed_over(self) -> bool {
        self matches Sighting::Directory(_, Err(error)) && git_error_is_not_found(error)
    }

    /// The directory opened as a repository.
    pub open spec fn is_repository(self) -> bool {
        self matches Sighting::Directory(_, Ok(_))
    }

    /// The walk does not go into what was sighted: a directory that is a
    /// repository, or that could not be opened.
    pub open spec fn is_left(self) -> bool {
        self is Directory && !self.passed_over()
    }

    /// What was sighted earlier does not lie at or under what is sighted
    /// here: a directory is come upon before what lies in it.
    pub open spec fn not_above(self, earlier: Sighting) -> bool {
        self is Directory && earlier is Directory ==> !lies_under(
            earlier->Directory_0,
            self->Directory_0,
        )
    }

    /// The sighting is of nothing that lies under `above`.
    pub open spec fn outside(self, above: PathBuf) -> bool {
        self matches Sighting::Directory(path, _) ==> !lies_under(path, above)
    }

    /// The sighting is of what a step of the walk yielded: the failure, or
    /// the directory at the path.
    pub open spec fn is_of(self, yielded: Result<PathBuf, walkdir::Error>) -> bool {
        match yielded {
            Ok(path) => self matches Sighting::Directory(at, _) && at == path,
            Err(error) => self == Sighting::Unreadable(error),
        }
    }

    /// The sighting is of something at or below `root`.
    pub open spec fn within(self, root: PathBuf) -> bool {
        self matches Sighting::Directory(path, _) ==> lies_under(path, root)
    }

    /// `item` is what the search of `tree` reports of this sighting.
    pub open spec fn reported_as(self, tree: TreeConfig, item: Discovery) -> bool {
        match self {
            Sighting::Unreadable(error) => item == Discovery::Err(RepoIterError::Walkdir(error)),
            Sighting::Directory(path, Ok(repository)) => item matches Ok((name, found)) && name@
                == tree.name_at(path) && found == repository,
            Sighting::Directory(_, Err(error)) => !git_error_is_not_found(error) && item
                == Discovery::Err(RepoIterError::Git(error)),
        }
    }
}

/// A repository is reported exactly of a directory that opened as one: a
/// tree in which no directory does has none found in it.
pub proof fn lemma_found_only_where_opened(tree: TreeConfig, sighting: Sighting, item: Discovery)
    requires
        sighting.reported_as(tree, item),
    ensures
        item is Ok <==> sighting.is_repository(),
        !sighting.passed_over(),
{
}

/// The name of a repository is derived from the path at which the walk
/// came upon it; without a replacement it is the text of that path.
pub proof fn lemma_name_follows_the_walk(
    tree: TreeConfig,
    path: PathBuf,
    repository: Repository,
    item: Discovery,
)
    requires
        Sighting::Directory(path, Ok(repository)).reported_as(tree, item),
    ensures
        item matches Ok((name, _)) && name@ == tree.name_at(path),
        tree.replace_root is None ==> item->Ok_0.0@ == path_text(path),
{
}

/// One of the sightings is of the directory at `path`, which was reported:
/// as a repository, or as one that could not be opened.
pub open spec fn reported_at(seen: Seq<Sighting>, path: PathBuf) -> bool {
    exists|i: int|
        0 <= i < seen.len() && (#[trigger] seen[i]).is_left() && seen[i]->Directory_0 == path
}

/// A directory that was reported stays so when the walk comes upon more.
pub proof fn lemma_reported_stays(seen: Seq<Sighting>, next: Sighting, path: PathBuf)
    requires
        reported_at(seen, path),
    ensures
        reported_at(seen.push(next), path),
{
    let i = choose|i: int|
        0 <= i < seen.len() && (#[trigger] seen[i]).is_left() && seen[i]->Directory_0 == path;
    assert(seen.push(next)[i] == seen[i]);
}

/// A directory is reported by the sighting of it that is not passed over.
pub proof fn lemma_reported_by_last(seen: Seq<Sighting>, next: Sighting)
    requires
        next.is_left(),
    ensures
        reported_at(seen.push(next), next->Directory_0),
{
    assert(seen.push(next)[seen.len() as int] == next);
}

/// Every sighting of `seen` from index `from` up to, and without, index
/// `to` is of a directory that is no repository.
pub open spec fn all_passed_over(seen: Seq<Sighting>, from: int, to: int) -> bool {
    forall|i: int| from <= i < to ==> (#[trigger] seen[i]).passed_over()
}

/// The sightings of a search of `tree` that are reported, in order, each
/// with the tree: those that are not passed over.
pub open spec fn reported_of(seen: Seq<Sighting>, tree: TreeConfig) -> Seq<(TreeConfig, Sighting)>
    decreases seen.len(),
{
    if seen.len() == 0 {
        Seq::empty()
    } else if seen.last().passed_over() {
        reported_of(seen.drop_last(), tree)
    } else {
        reported_of(seen.drop_last(), tree).push((tree, seen.last()))
    }
}

/// One more sighting adds itself to the reported ones unless it is passed
/// over.
pub proof fn lemma_reported_of_push(seen: Seq<Sighting>, next: Sighting, tree: TreeConfig)
    ensures
        reported_of(seen.push(next), tree) == if next.passed_over() {
            reported_of(seen, tree)
        } else {
            reported_of(seen, tree).push((tree, next))
        },
{
    assert(seen.push(next).drop_last() =~= seen);
}

/// Where every sighting is passed over, none is reported: a tree in which
/// no directory opens as a repository, and nothing fails, gives nothing.
pub proof fn lemma_passed_over_is_not_reported(seen: Seq<Sighting>, tree: TreeConfig)
    requires
        all_passed_over(seen, 0, seen.len() as int),
    ensures
        reported_of(seen, tree).len() == 0,
    decreases seen.len(),
{
    if seen.len() > 0 {
        assert(seen[seen.len() - 1].passed_over());
        assert forall|i: int| 0 <= i < seen.drop_last().len() implies (#[trigger] seen.drop_last()[i]).passed_over() by {
            assert(seen[i].passed_over());
        }
        lemma_passed_over_is_not_reported(seen.drop_last(), tree);
    }
}

/// The search of one directory tree: each call of `next` gives the next
/// repository found, or the next failure.
///
/// The search looks at no more than `u64::MAX` entries of the tree; a tree
/// with more counts as exhausted once that many have been looked at.
pub struct TreeRepoIter<'a> {
    walker: DirWalker,
    tree_config: &'a TreeConfig,
    steps_left: u64,
    seen: Ghost<Seq<Sighting>>,
}

impl<'a> TreeRepoIter<'a> {
    /// The tree that is searched.
    pub closed spec fn tree(&self) -> TreeConfig {
        *self.tree_config
    }

    /// How many directories the search may still look at.
    pub closed spec fn budget(&self) -> nat {
        self.steps_left as nat
    }

    /// The walk that the search runs.
    pub closed spec fn walk(&self) -> DirWalker {
        self.walker
    }

    /// The search is over: the walk is at its end, or the search has looked
    /// at as many entries as it may.
    pub closed spec fn finished(&self) -> bool {
        walk_ended(self.walker) || self.steps_left == 0
    }

    /// A search that may look at no further entry is over, and a search
    /// has spent of its entries what it has come upon.
    pub proof fn lemma_spent_is_finished(&self)
        requires
            self.wf(),
        ensures
            self.budget() == 0 ==> self.finished(),
            self.budget() + self.sightings().len() == u64::MAX,
    {
    }

    /// What the walk has come upon so far, in order.
    pub closed spec fn sightings(&self) -> Seq<Sighting> {
        self.seen@
    }

    /// What the search has reported so far, in order: the sightings that
    /// were not passed over.
    pub open spec fn reported(&self) -> Seq<(TreeConfig, Sighting)> {
        reported_of(self.sightings(), self.tree())
    }

    /// The walk runs over the tree's root and follows symbolic links. The
    /// sightings are what its steps have yielded, one for one, and each has
    /// taken one from the entries that the search may look at. All it has
    /// come upon lies under the root. It has been told to skip each
    /// directory that was reported, and no other.
    pub closed spec fn wf(&self) -> bool {
        &&& walk_root(self.walker) == self.tree_config.root
        &&& walk_follows_links(self.walker)
        &&& self.steps_left + self.seen@.len() == u64::MAX
        &&& walk_yielded(self.walker).len() == self.seen@.len()
        &&& forall|i: int|
            0 <= i < self.seen@.len() ==> (#[trigger] self.seen@[i]).is_of(
                walk_yielded(self.walker)[i],
            )
        &&& forall|closed: PathBuf| #[trigger]
            walk_closed(self.walker).contains(closed) ==> reported_at(self.seen@, closed)
        &&& forall|i: int, j: int|
            0 <= i < j < self.seen@.len() ==> (#[trigger] self.seen@[j]).not_above(
                #[trigger] self.seen@[i],
            )
        &&& forall|i: int|
            0 <= i < self.seen@.len() ==> (#[trigger] self.seen@[i]).within(self.tree_config.root)
        &&& forall|i: int|
            0 <= i < self.seen@.len() && (#[trigger] self.seen@[i]).is_left() ==> walk_closed(
                self.walker,
            ).contains(self.seen@[i]->Directory_0)
        &&& forall|i: int, j: int|
            0 <= i < j < self.seen@.len() && (#[trigger] self.seen@[i]).is_left() ==> (
            #[trigger] self.seen@[j]).outside(self.seen@[i]->Directory_0)
    }

    /// The walk follows symbolic links: a link to a repository is come upon
    /// as a directory, under the path of the link.
    pub proof fn lemma_links_are_followed(&self)
        requires
            self.wf(),
        ensures
            walk_follows_links(self.walk()),
    {
    }

    /// The sightings are what the steps of the walk have yielded, one for
    /// one and in order: nothing that the walk came upon is left out.
    pub proof fn lemma_sightings_are_the_walk(&self, i: int)
        requires
            self.wf(),
            0 <= i < self.sightings().len(),
        ensures
            walk_yielded(self.walk()).len() == self.sightings().len(),
            self.sightings()[i].is_of(walk_yielded(self.walk())[i]),
    {
    }

    /// The walk is kept out of the directories that were reported, and of
    /// no other: a directory that is no repository is gone into.
    pub proof fn lemma_only_reported_are_skipped(&self, closed: PathBuf)
        requires
            self.wf(),
            walk_closed(self.walk()).contains(closed),
        ensures
            reported_at(self.sightings(), closed),
    {
    }

    /// Once the walk has come upon a repository, or upon a directory that
    /// could not be opened, it comes upon nothing that lies under it: a
    /// repository inside a repository is not found.
    pub proof fn lemma_nothing_under_a_repository(&self, i: int, j: int)
        requires
            self.wf(),
            0 <= i < j < self.sightings().len(),
            self.sightings()[i].is_left(),
        ensures
            self.sightings()[j].outside(self.sightings()[i]->Directory_0),
    {
    }

    /// No two directories that were reported lie one in the other,
    /// whichever was come upon first: of a repository and the repositories
    /// nested in it, only the outer one is reported.
    pub proof fn lemma_reported_lie_apart(&self, i: int, j: int)
        requires
            self.wf(),
            0 <= i < self.sightings().len(),
            0 <= j < self.sightings().len(),
            i != j,
            self.sightings()[i].is_left(),
            self.sightings()[j].is_left(),
        ensures
            !lies_under(self.sightings()[i]->Directory_0, self.sightings()[j]->Directory_0),
            !lies_under(self.sightings()[j]->Directory_0, self.sightings()[i]->Directory_0),
    {
        if i < j {
            assert(self.seen@[j].outside(self.seen@[i]->Directory_0));
            assert(self.seen@[j].not_above(self.seen@[i]));
        } else {
            assert(self.seen@[i].outside(self.seen@[j]->Directory_0));
            assert(self.seen@[i].not_above(self.seen@[j]));
        }
    }

    /// All that a well-formed search has come upon lies under the root of
    /// its tree.
    pub proof fn lemma_sightings_within_root(&self, i: int)
        requires
            self.wf(),
            0 <= i < self.sightings().len(),
        ensures
            self.sightings()[i].within(self.tree().root),
    {
    }

    /// Goes on with the walk until a repository or a failure is met, and
    /// reports it; `None` once the tree is exhausted.
    ///
    /// A directory that opens as a repository is reported under its name
    /// and not descended into. A directory that is no repository is passed
    /// over in silence and descended into. Any other failure to open a
    /// directory is reported, and the directory is not descended into. A
    /// failure to read the tree is reported. After a failure the walk goes
    /// on with the next call.
    pub fn next(&mut self) -> (item: Option<Discovery>)
        requires
            old(self).wf(),
        ensures
            final(self).wf(),
            final(self).tree() == old(self).tree(),
            final(self).budget() <= old(self).budget(),
            item is Some ==> final(self).budget() < old(self).budget(),
            old(self).budget() - final(self).budget() == final(self).sightings().len() - old(
                self,
            ).sightings().len(),
            item is None ==> final(self).finished(),
            old(self).finished() ==> item is None,
            old(self).sightings().len() <= final(self).sightings().len(),
            final(self).sightings().subrange(0, old(self).sightings().len() as int) == old(
                self,
            ).sightings(),
            match item {
                Some(found) => {
                    &&& old(self).sightings().len() < final(self).sightings().len()
                    &&& all_passed_over(
                        final(self).sightings(),
                        old(self).sightings().len() as int,
                        final(self).sightings().len() - 1,
                    )
                    &&& final(self).sightings().last().reported_as(old(self).tree(), found)
                    &&& final(self).reported() == old(self).reported().push(
                        (old(self).tree(), final(self).sightings().last()),
                    )
                },
                None => {
                    &&& all_passed_over(
                        final(self).sightings(),
                        old(self).sightings().len() as int,
                        final(self).sightings().len() as int,
                    )
                    &&& final(self).reported() == old(self).reported()
                },
            },
    {
        let ghost before = self.seen@;
        assert(self.seen@.subrange(0, before.len() as int) =~= before);
        while self.steps_left > 0
            invariant
                self.wf(),
                self.tree() == old(self).tree(),
                self.budget() <= old(self).budget(),
                old(self).budget() - self.budget() == self.seen@.len() - before.len(),
                old(self).finished() && old(self).budget() > 0 ==> walk_ended(self.walker),
                before == old(self).sightings(),
                before.len() <= self.seen@.len(),
                reported_of(self.seen@, *self.tree_config) == reported_of(
                    before,
                    *old(self).tree_config,
                ),
                self.seen@.subrange(0, before.len() as int) == before,
                all_passed_over(self.seen@, before.len() as int, self.seen@.len() as int),
            decreases self.steps_left,
        {
            let ghost so_far = self.seen@;
            match walker_next(&mut self.walker) {
                None => {
                    return None;
                },
                Some(Err(error)) => {
                    self.steps_left = self.steps_left - 1;
                    proof {
                        self.seen@ = so_far.push(Sighting::Unreadable(error));
                        lemma_reported_of_push(
                            so_far,
                            Sighting::Unreadable(error),
                            *self.tree_config,
                        );
                        assert(self.seen@.subrange(0, before.len() as int) =~= before);
                        assert forall|closed: PathBuf| #[trigger]
                            walk_closed(self.walker).contains(closed) implies reported_at(
                            self.seen@,
                            closed,
                        ) by {
                            lemma_reported_stays(so_far, Sighting::Unreadable(error), closed);
                        }
                    }
                    return Some(Err(RepoIterError::Walkdir(error)));
                },
                Some(Ok(entry)) => {
                    self.steps_left = self.steps_left - 1;
                    let path = entry_path(&entry);
                    let opened = open_repository(&path);
                    let ghost sighting = Sighting::Directory(path, opened);
                    proof {
                        self.seen@ = so_far.push(sighting);
                        lemma_reported_of_push(so_far, sighting, *self.tree_config);
                        assert(self.seen@.subrange(0, before.len() as int) =~= before);
                        assert forall|closed: PathBuf| #[trigger]
                            walk_closed(self.walker).contains(closed) implies reported_at(
                            self.seen@,
                            closed,
                        ) by {
                            lemma_reported_stays(so_far, sighting, closed);
                        }
                    }
                    match visit_directory(self.tree_config, &path, opened) {
                        Visit::Found(name, repository) => {
                            walker_skip_current_dir(&mut self.walker);
                            proof {
                                lemma_reported_by_last(so_far, sighting);
                            }
                            return Some(Ok((name, repository)));
                        },
                        Visit::Descend => {},
                        Visit::Failed(error) => {
                            walker_skip_current_dir(&mut self.walker);
                            proof {
                                lemma_reported_by_last(so_far, sighting);
                            }
                            return Some(Err(RepoIterError::Git(error)));
                        },
                    }
                },
            }
        }
        None
    }
}

impl TreeConfig {
    /// Starts the search of this tree: a depth-first walk from the root
    /// that follows symbolic links and looks at directories only.
    pub fn repo_iter(&self) -> (iter: TreeRepoIter<'_>)
        ensures
            iter.wf(),
            iter.tree() == *self,
            iter.budget() == u64::MAX,
            !iter.finished(),
            walk_follows_links(iter.walk()),
            iter.sightings() == Seq::<Sighting>::empty(),
    {
        TreeRepoIter {
            walker: start_walk(&self.root, true),
            tree_config: self,
            steps_left: u64::MAX,
            seen: Ghost(Seq::empty()),
        }
    }
}

/// The most that the search of one tree adds to what is left of the search
/// of a configuration.
pub open spec fn tree_weight() -> nat {
    0x1_0000_0000_0000_0001
}

/// What the first `upto` of the searches have reported, search after
/// search.
pub open spec fn reported_upto(searches: Seq<TreeRepoIter<'_>>, upto: int) -> Seq<
    (TreeConfig, Sighting),
>
    decreases upto,
{
    if upto <= 0 {
        Seq::empty()
    } else {
        reported_upto(searches, upto - 1) + searches[upto - 1].reported()
    }
}

/// What the first searches have reported rests on those searches alone.
pub proof fn lemma_reported_upto_agrees(
    a: Seq<TreeRepoIter<'_>>,
    b: Seq<TreeRepoIter<'_>>,
    upto: int,
)
    requires
        upto <= a.len(),
        upto <= b.len(),
        forall|k: int| 0 <= k < upto ==> a[k] == b[k],
    ensures
        reported_upto(a, upto) == reported_upto(b, upto),
    decreases upto,
{
    if upto > 0 {
        lemma_reported_upto_agrees(a, b, upto - 1);
    }
}

/// Where all that the first searches came upon is passed over, they have
/// reported nothing.
pub proof fn lemma_nothing_reported_upto(searches: Seq<TreeRepoIter<'_>>, upto: int)
    requires
        upto <= searches.len(),
        forall|k: int|
            0 <= k < upto ==> all_passed_over(
                (#[trigger] searches[k]).sightings(),
                0,
                searches[k].sightings().len() as int,
            ),
    ensures
        reported_upto(searches, upto).len() == 0,
    decreases upto,
{
    if upto > 0 {
        lemma_nothing_reported_upto(searches, upto - 1);
        lemma_passed_over_is_not_reported(
            searches[upto - 1].sightings(),
            searches[upto - 1].tree(),
        );
    }
}

/// The search of all trees of a configuration, one tree after the other.
pub struct ConfigRepoIter<'a> {
    config: &'a Config,
    next_tree: usize,
    tree_iter: Option<TreeRepoIter<'a>>,
    left: Ghost<Seq<TreeRepoIter<'a>>>,
}

impl<'a> ConfigRepoIter<'a> {
    /// The configuration whose trees are searched.
    pub closed spec fn config(&self) -> Config {
        *self.config
    }

    /// How many trees the search has started on.
    pub closed spec fn started(&self) -> nat {
        self.next_tree as nat
    }

    /// No tree is left to search.
    pub closed spec fn finished(&self) -> bool {
        self.tree_iter is None
    }

    /// The searches of the trees that were started on, in the order of the
    /// trees: those that were left, as they were when they were left, and
    /// the one that is going on.
    pub closed spec fn searches(&self) -> Seq<TreeRepoIter<'a>> {
        match self.tree_iter {
            Some(iter) => self.left@.push(iter),
            None => self.left@,
        }
    }

    /// What the search of tree `k` has come upon so far; nothing, where
    /// that tree was not started on.
    pub open spec fn seen_in(&self, k: int) -> Seq<Sighting> {
        if 0 <= k < self.searches().len() {
            self.searches()[k].sightings()
        } else {
            Seq::empty()
        }
    }

    /// What the search has reported so far, tree after tree and in order:
    /// the sightings that were not passed over, each with its tree.
    pub open spec fn reported(&self) -> Seq<(TreeConfig, Sighting)> {
        reported_upto(self.searches(), self.searches().len() as int)
    }

    /// Where all that the searches of the trees came upon is passed over,
    /// nothing is reported.
    pub proof fn lemma_nothing_reported(&self)
        requires
            self.wf(),
            forall|k: int|
                0 <= k < self.started() ==> all_passed_over(
                    #[trigger] self.seen_in(k),
                    0,
                    self.seen_in(k).len() as int,
                ),
        ensures
            self.reported().len() == 0,
    {
        assert forall|k: int| 0 <= k < self.searches().len() implies all_passed_over(
            (#[trigger] self.searches()[k]).sightings(),
            0,
            self.searches()[k].sightings().len() as int,
        ) by {
            assert(self.seen_in(k) == self.searches()[k].sightings());
        }
        lemma_nothing_reported_upto(self.searches(), self.searches().len() as int);
    }

    /// A bound on the number of items that the search can still give.
    pub closed spec fn remaining(&self) -> nat {
        match self.tree_iter {
            Some(iter) => ((self.config.repos@.len() - self.next_tree) * tree_weight()
                + iter.budget() + 1) as nat,
            None => 0,
        }
    }

    /// The search is on the tree before `started`, or has finished with
    /// all trees; each tree before that was left when its search was
    /// finished.
    pub closed spec fn wf(&self) -> bool {
        &&& self.next_tree <= self.config.repos@.len()
        &&& self.searches().len() == self.next_tree
        &&& forall|k: int|
            0 <= k < self.left@.len() ==> {
                &&& (#[trigger] self.left@[k]).wf()
                &&& self.left@[k].finished()
                &&& self.left@[k].tree() == self.config.repos@[k]
            }
        &&& match self.tree_iter {
            Some(iter) => {
                &&& iter.wf()
                &&& self.next_tree >= 1
                &&& iter.tree() == self.config.repos@[self.next_tree - 1]
            },
            None => self.next_tree == self.config.repos@.len(),
        }
    }

    /// The searches are those of the first trees of the configuration, one
    /// for each tree that was started on, and every search but the one
    /// that is going on is finished: no tree is left before its search is
    /// over.
    pub proof fn lemma_trees_are_searched_in_order(&self, k: int)
        requires
            self.wf(),
            0 <= k < self.searches().len(),
        ensures
            self.searches().len() == self.started(),
            self.started() <= self.config().repos@.len(),
            self.searches()[k].wf(),
            self.searches()[k].tree() == self.config().repos@[k],
            k < self.searches().len() - 1 || self.finished() ==> self.searches()[k].finished(),
            self.finished() ==> self.started() == self.config().repos@.len(),
    {
    }

    /// Gives the next repository or failure of the tree that is being
    /// searched; when that tree is exhausted, goes on to the next tree.
    /// `None` once every tree is exhausted.
    ///
    /// What each tree's search had come upon stays; what is newly come upon
    /// is passed over, all but the sighting that the item reports, which is
    /// the last of the tree that the search then stands at.
    pub fn next(&mut self) -> (item: Option<Discovery>)
        requires
            old(self).wf(),
        ensures
            final(self).wf(),
            final(self).config() == old(self).config(),
            old(self).started() <= final(self).started(),
            final(self).searches().len() == final(self).started(),
            final(self).remaining() <= old(self).remaining(),
            item is Some ==> final(self).remaining() < old(self).remaining(),
            item is None ==> final(self).finished(),
            old(self).finished() ==> item is None,
            forall|k: int|
                0 <= k < final(self).started() ==> {
                    &&& old(self).seen_in(k).len() <= (#[trigger] final(self).seen_in(k)).len()
                    &&& final(self).seen_in(k).subrange(0, old(self).seen_in(k).len() as int)
                        == old(self).seen_in(k)
                    &&& all_passed_over(
                        final(self).seen_in(k),
                        old(self).seen_in(k).len() as int,
                        if item is Some && k == final(self).started() - 1 {
                            final(self).seen_in(k).len() - 1
                        } else {
                            final(self).seen_in(k).len() as int
                        },
                    )
                },
            item is None ==> final(self).reported() == old(self).reported(),
            item matches Some(found) ==> {
                &&& 1 <= final(self).started() <= old(self).config().repos@.len()
                &&& final(self).reported() == old(self).reported().push(
                    (
                        old(self).config().repos@[final(self).started() - 1],
                        final(self).seen_in(final(self).started() - 1).last(),
                    ),
                )
                &&& old(self).seen_in(final(self).started() - 1).len() < final(self).seen_in(
                    final(self).started() - 1,
                ).len()
                &&& final(self).seen_in(final(self).started() - 1).last().reported_as(
                    old(self).config().repos@[final(self).started() - 1],
                    found,
                )
                &&& exists|sighting: Sighting|
                    {
                        &&& sighting.within(
                            old(self).config().repos@[final(self).started() - 1].root,
                        )
                        &&& #[trigger] sighting.reported_as(
                            old(self).config().repos@[final(self).started() - 1],
                            found,
                        )
                    }
            },
    {
        proof {
            assert forall|k: int| 0 <= k < self.started() implies {
                &&& self.seen_in(k).subrange(0, old(self).seen_in(k).len() as int) == old(
                    self,
                ).seen_in(k)
            } by {
                assert(self.seen_in(k).subrange(0, self.seen_in(k).len() as int) =~= self.seen_in(
                    k,
                ));
            }
        }
        while self.tree_iter.is_some()
            invariant
                self.wf(),
                self.config() == old(self).config(),
                old(self).started() <= self.started(),
                old(self).searches().len() == old(self).started(),
                self.reported() == old(self).reported(),
                self.remaining() <= old(self).remaining(),
                forall|k: int|
                    0 <= k < self.started() ==> {
                        &&& old(self).seen_in(k).len() <= (#[trigger] self.seen_in(k)).len()
                        &&& self.seen_in(k).subrange(0, old(self).seen_in(k).len() as int) == old(
                            self,
                        ).seen_in(k)
                        &&& all_passed_over(
                            self.seen_in(k),
                            old(self).seen_in(k).len() as int,
                            self.seen_in(k).len() as int,
                        )
                    },
            decreases self.remaining(),
        {
            let ghost entering = *self;
            let mut current = self.tree_iter.take().unwrap();
            let ghost at = self.next_tree - 1;
            let ghost was = current;
            assert(entering.seen_in(at) == was.sightings());
            let item = current.next();
            match item {
                Some(found) => {
                    proof {
                        current.lemma_sightings_within_root(current.sightings().len() - 1);
                    }
                    self.tree_iter = Some(current);
                    proof {
                        assert(self.searches() =~= entering.searches().update(at, current));
                        lemma_reported_upto_agrees(self.searches(), entering.searches(), at);
                        assert(self.searches()[at] == current);
                        assert(entering.searches()[at] == was);
                        assert(self.reported() =~= entering.reported().push(
                            (was.tree(), current.sightings().last()),
                        ));
                        assert forall|k: int| 0 <= k < self.started() implies {
                            &&& old(self).seen_in(k).len() <= (#[trigger] self.seen_in(k)).len()
                            &&& self.seen_in(k).subrange(0, old(self).seen_in(k).len() as int)
                                == old(self).seen_in(k)
                            &&& all_passed_over(
                                self.seen_in(k),
                                old(self).seen_in(k).len() as int,
                                if k == self.started() - 1 {
                                    self.seen_in(k).len() - 1
                                } else {
                                    self.seen_in(k).len() as int
                                },
                            )
                        } by {
                            if k == at {
                                lemma_grown(
                                    old(self).seen_in(k),
                                    was.sightings(),
                                    current.sightings(),
                                    current.sightings().len() - 1,
                                );
                            } else {
                                assert(self.seen_in(k) == entering.seen_in(k));
                            }
                        }
                    }
                    return Some(found);
                },
                None => {},
            }
            assert((self.config.repos@.len() - self.next_tree) * tree_weight() >= 0) by (nonlinear_arith)
                requires
                    self.config.repos@.len() - self.next_tree >= 0,
            ;
            let ghost emptied = self.left@;
            proof {
                self.left@ = self.left@.push(current);
            }
            if self.next_tree < self.config.repos.len() {
                let tree = &self.config.repos[self.next_tree];
                assert((self.config.repos@.len() - (self.next_tree + 1)) * tree_weight() == (
                self.config.repos@.len() - self.next_tree) * tree_weight() - tree_weight())
                    by (nonlinear_arith);
                self.tree_iter = Some(tree.repo_iter());
                self.next_tree = self.next_tree + 1;
            } else {
                self.tree_iter = None;
            }
            proof {
                lemma_reported_upto_agrees(self.searches(), entering.searches(), at);
                lemma_reported_upto_agrees(self.searches(), self.left@, at + 1);
                assert(self.left@[at] == current);
                assert(entering.searches()[at] == was);
                assert(reported_upto(self.left@, at + 1) =~= entering.reported());
                if self.tree_iter is Some {
                    assert(self.searches()[at + 1].reported().len() == 0);
                    assert(self.reported() =~= reported_upto(self.searches(), at + 1));
                }
                assert(self.reported() == entering.reported());
                assert forall|k: int| 0 <= k < self.started() implies {
                    &&& old(self).seen_in(k).len() <= (#[trigger] self.seen_in(k)).len()
                    &&& self.seen_in(k).subrange(0, old(self).seen_in(k).len() as int) == old(
                        self,
                    ).seen_in(k)
                    &&& all_passed_over(
                        self.seen_in(k),
                        old(self).seen_in(k).len() as int,
                        self.seen_in(k).len() as int,
                    )
                } by {
                    if k == at {
                        assert(self.searches()[k] == current);
                        lemma_grown(
                            old(self).seen_in(k),
                            was.sightings(),
                            current.sightings(),
                            current.sightings().len() as int,
                        );
                    } else if k < at {
                        assert(self.searches()[k] == entering.searches()[k]);
                        assert(self.seen_in(k) == entering.seen_in(k));
                    } else {
                        assert(old(self).seen_in(k).len() == 0);
                        assert(self.seen_in(k).len() == 0);
                        assert(self.seen_in(k).subrange(0, 0) =~= old(self).seen_in(k));
                    }
                }
            }
        }
        None
    }
}

/// What held of the sightings of a search up to now, and holds of its next
/// stretch, holds of both together: the sightings at the start are still
/// in front, and what came after them is passed over up to `to`.
pub proof fn lemma_grown(start: Seq<Sighting>, before: Seq<Sighting>, now: Seq<Sighting>, to: int)
    requires
        start.len() <= before.len() <= now.len(),
        before.subrange(0, start.len() as int) == start,
        all_passed_over(before, start.len() as int, before.len() as int),
        now.subrange(0, before.len() as int) == before,
        all_passed_over(now, before.len() as int, to),
    ensures
        now.subrange(0, start.len() as int) == start,
        all_passed_over(now, start.len() as int, to),
{
    assert(now.subrange(0, start.len() as int) =~= before.subrange(0, start.len() as int)) by {
        assert forall|i: int| 0 <= i < start.len() implies now.subrange(0, start.len() as int)[i]
            == before.subrange(0, start.len() as int)[i] by {
            assert(now.subrange(0, before.len() as int)[i] == before[i]);
        }
    }
    assert forall|i: int| start.len() <= i < to implies (#[trigger] now[i]).passed_over() by {
        if i < before.len() {
            assert(now.subrange(0, before.len() as int)[i] == before[i]);
            assert(before[i].passed_over());
        }
    }
}

impl Config {
    /// Starts the search of the trees of this configuration, beginning
    /// with the first.
    #[must_use]
    pub fn repo_iter(&self) -> (iter: ConfigRepoIter<'_>)
        ensures
            iter.wf(),
            iter.config() == *self,
            iter.started() == (if self.repos@.len() == 0 {
                0nat
            } else {
                1nat
            }),
            iter.finished() <==> self.repos@.len() == 0,
            forall|k: int| (#[trigger] iter.seen_in(k)).len() == 0,
    {
        if self.repos.len() > 0 {
            ConfigRepoIter {
                config: self,
                next_tree: 1,
                tree_iter: Some(self.repos[0].repo_iter()),
                left: Ghost(Seq::empty()),
            }
        } else {
            ConfigRepoIter { config: self, next_tree: 0, tree_iter: None, left: Ghost(Seq::empty()) }
        }
    }
}

} // verus!
