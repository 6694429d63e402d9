use git2::Repository;
use repoyear_backend::repos::branch::attempt;
use repoyear_backend::repos::branch::Lookup;
use repoyear_backend::repos::branch::Step;
use repoyear_backend::repos::get_default_branch;
use repoyear_backend::repos::scan;
use repoyear_backend::repos::scan::hosted_elsewhere;
use repoyear_backend::repos::scan::prepare_walk;
use repoyear_backend::repos::scan::walk_history;
use repoyear_backend::repos;
use repoyear_backend::repos::ScanError;
use std::path::Path;

fn init_repo(path: &Path) -> Repository {
    let mut options = git2::RepositoryInitOptions::new();
    options.initial_head("main");
    Repository::init_opts(path, &options).unwrap()
}

fn init_bare_repo(path: &Path) -> Repository {
    let mut options = git2::RepositoryInitOptions::new();
    options.initial_head("main");
    options.bare(true);
    Repository::init_opts(path, &options).unwrap()
}

fn commit_at(repo: &Repository, target: &str, authored: i64, committed: i64) -> git2::Oid {
    let author =
        git2::Signature::new("Name", "name@example.com", &git2::Time::new(authored, 0)).unwrap();
    let committer =
        git2::Signature::new("Name", "name@example.com", &git2::Time::new(committed, 60)).unwrap();
    let tree_id = repo.treebuilder(None).unwrap().write().unwrap();
    let tree = repo.find_tree(tree_id).unwrap();
    let parents: Vec<git2::Commit> = match repo.find_reference(target) {
        Ok(reference) => vec![reference.peel_to_commit().unwrap()],
        Err(_) => Vec::new(),
    };
    let parent_refs: Vec<&git2::Commit> = parents.iter().collect();
    repo.commit(Some(target), &author, &committer, "commit", &tree, &parent_refs).unwrap()
}

fn make_commit(repo: &Repository, n: i64) -> git2::Oid {
    commit_at(repo, "refs/heads/main", 1_000_000 + n, 1_000_000 + n)
}

#[test]
fn scan_repo() {
    let root = tempfile::tempdir().unwrap();
    let repo = init_repo(&root.path().join("repo"));
    make_commit(&repo, 0);
    let times = scan(root.path().join("repo")).unwrap();
    assert_eq!(times.len(), 1);
}

#[test]
fn scan_repo_dotgit() {
    let root = tempfile::tempdir().unwrap();
    let repo = init_repo(&root.path().join("repo"));
    make_commit(&repo, 0);
    let times = scan(root.path().join("repo/.git")).unwrap();
    assert_eq!(times.len(), 1);
}

#[test]
fn scan_repo_subdir() {
    let root = tempfile::tempdir().unwrap();
    let repo = init_repo(&root.path().join("repo"));
    fs_err::create_dir(root.path().join("repo/dir")).unwrap();
    fs_err::write(root.path().join("repo/dir/a"), "a0").unwrap();
    let mut index = repo.index().unwrap();
    index.add_path(Path::new("dir/a")).unwrap();
    index.write().unwrap();
    make_commit(&repo, 0);

    assert!(scan(root.path().join("repo/dir")).is_err());
}

#[test]
fn scan_nonrepo() {
    let root = tempfile::tempdir().unwrap();
    let repo = init_repo(&root.path().join("repo"));
    make_commit(&repo, 0);

    assert!(scan(root.path().to_path_buf()).is_err());
}

#[test]
fn scan_bare_repo() {
    let root = tempfile::tempdir().unwrap();
    init_bare_repo(&root.path().join("bare_repo"));
    let clone = Repository::clone(
        root.path().join("bare_repo").to_str().unwrap(),
        root.path().join("repo"),
    )
    .unwrap();
    make_commit(&clone, 0);
    clone
        .find_remote("origin")
        .unwrap()
        .push(&["refs/heads/main:refs/heads/main"], None)
        .unwrap();

    let times = scan(root.path().join("bare_repo")).unwrap();
    assert_eq!(times.len(), 1);
}

#[test]
fn github_https_remote_gives_empty_history() {
    let root = tempfile::tempdir().unwrap();
    let repo = init_repo(&root.path().join("repo"));
    make_commit(&repo, 0);
    make_commit(&repo, 1);
    repo.remote("origin", "https://github.com/foo/bar").unwrap();
    assert_eq!(repos::scan_repo(&repo).unwrap(), Vec::<i64>::new());
    assert_eq!(scan(root.path().join("repo")).unwrap(), Vec::<i64>::new());
}

#[test]
fn github_ssh_remote_gives_empty_history_without_commits() {
    let root = tempfile::tempdir().unwrap();
    let repo = init_repo(&root.path().join("repo"));
    repo.remote("backup", "/srv/backup.git").unwrap();
    repo.remote("hub", "git@github.com:foo/bar.git").unwrap();
    assert_eq!(repos::scan_repo(&repo).unwrap(), Vec::<i64>::new());
}

#[test]
fn other_remote_does_not_hide_history() {
    let root = tempfile::tempdir().unwrap();
    let repo = init_repo(&root.path().join("repo"));
    make_commit(&repo, 7);
    repo.remote("origin", "https://example.com/github.com/foo").unwrap();
    repo.remote("second", "ssh://git@github.com/foo/bar").unwrap();
    assert_eq!(repos::scan_repo(&repo).unwrap(), vec![1_000_007]);
}

#[test]
fn history_is_newest_commit_first_with_author_times() {
    let root = tempfile::tempdir().unwrap();
    let repo = init_repo(&root.path().join("repo"));
    commit_at(&repo, "refs/heads/main", 500, 1_000);
    commit_at(&repo, "refs/heads/main", 900, 2_000);
    commit_at(&repo, "refs/heads/main", 100, 3_000);
    assert_eq!(repos::scan_repo(&repo).unwrap(), vec![100, 900, 500]);
}

#[test]
fn origin_head_wins_over_main() {
    let root = tempfile::tempdir().unwrap();
    let repo = init_repo(&root.path().join("repo"));
    let main = make_commit(&repo, 0);
    let dev = commit_at(&repo, "refs/heads/dev", 2_000_000, 2_000_000);
    assert_ne!(main, dev);
    repo.reference("refs/remotes/origin/dev", dev, true, "test").unwrap();
    repo.reference_symbolic("refs/remotes/origin/HEAD", "refs/remotes/origin/dev", true, "test")
        .unwrap();
    assert_eq!(get_default_branch(&repo).unwrap(), dev);
    assert!(matches!(attempt(&repo, Step::OriginHead), Lookup::Resolved(found) if found == dev));
    assert!(matches!(attempt(&repo, Step::UpstreamHead), Lookup::NoMatch));
    assert!(matches!(attempt(&repo, Step::Main), Lookup::Resolved(found) if found == main));
    assert!(matches!(attempt(&repo, Step::Master), Lookup::NoMatch));
}

#[test]
fn upstream_head_is_second() {
    let root = tempfile::tempdir().unwrap();
    let repo = init_repo(&root.path().join("repo"));
    let main = make_commit(&repo, 0);
    let work = commit_at(&repo, "refs/heads/work", 2_000_000, 2_000_000);
    repo.reference_symbolic("refs/remotes/upstream/HEAD", "refs/remotes/upstream/work", true, "t")
        .unwrap();
    assert_eq!(get_default_branch(&repo).unwrap(), work);
    repo.reference_symbolic("refs/remotes/origin/HEAD", "refs/remotes/origin/gone", true, "t")
        .unwrap();
    assert_eq!(get_default_branch(&repo).unwrap(), work);
    repo.reference_symbolic("refs/remotes/origin/HEAD", "refs/remotes/origin/main", true, "t")
        .unwrap();
    assert_eq!(get_default_branch(&repo).unwrap(), main);
}

#[test]
fn head_target_of_another_shape_falls_through() {
    let root = tempfile::tempdir().unwrap();
    let repo = init_repo(&root.path().join("repo"));
    let main = make_commit(&repo, 0);
    commit_at(&repo, "refs/heads/dev", 2_000_000, 2_000_000);
    repo.reference_symbolic("refs/remotes/origin/HEAD", "refs/heads/dev", true, "t").unwrap();
    assert!(matches!(attempt(&repo, Step::OriginHead), Lookup::NoMatch));
    assert_eq!(get_default_branch(&repo).unwrap(), main);
}

#[test]
fn configured_branch_comes_before_main() {
    let root = tempfile::tempdir().unwrap();
    let repo = init_repo(&root.path().join("repo"));
    let main = make_commit(&repo, 0);
    let trunk = commit_at(&repo, "refs/heads/trunk", 2_000_000, 2_000_000);
    repo.config().unwrap().set_str("init.defaultBranch", "trunk").unwrap();
    assert!(matches!(attempt(&repo, Step::ConfiguredBranch), Lookup::Resolved(found) if found == trunk));
    assert_eq!(get_default_branch(&repo).unwrap(), trunk);
    repo.config().unwrap().set_str("init.defaultBranch", "nowhere").unwrap();
    assert!(matches!(attempt(&repo, Step::ConfiguredBranch), Lookup::NoMatch));
    assert_eq!(get_default_branch(&repo).unwrap(), main);
}

#[test]
fn master_and_head_are_last() {
    let root = tempfile::tempdir().unwrap();
    let repo = init_repo(&root.path().join("repo"));
    repo.config().unwrap().set_str("init.defaultBranch", "nowhere").unwrap();
    let other = commit_at(&repo, "refs/heads/other", 5, 5);
    repo.set_head("refs/heads/other").unwrap();
    assert_eq!(get_default_branch(&repo).unwrap(), other);
    let master = commit_at(&repo, "refs/heads/master", 6, 6);
    assert_eq!(get_default_branch(&repo).unwrap(), master);
}

#[test]
fn repository_without_commits_has_no_default_branch() {
    let root = tempfile::tempdir().unwrap();
    let repo = init_repo(&root.path().join("repo"));
    repo.config().unwrap().set_str("init.defaultBranch", "main").unwrap();
    let error = get_default_branch(&repo).unwrap_err();
    assert!(matches!(error, ScanError::NoDefaultBranch));
    assert_eq!(error.message(), "Could not find a default branch");
    assert!(matches!(repos::scan_repo(&repo), Err(ScanError::NoDefaultBranch)));
}

#[test]
fn scan_of_missing_path_is_a_git_error() {
    let root = tempfile::tempdir().unwrap();
    let error = scan(root.path().join("nothing")).unwrap_err();
    assert!(matches!(error, ScanError::Git(_)));
    assert!(!error.message().is_empty());
}

#[test]
fn first_github_remote_is_the_one_given() {
    let root = tempfile::tempdir().unwrap();
    let repo = init_repo(&root.path().join("repo"));
    assert_eq!(hosted_elsewhere(&repo).unwrap(), None);
    repo.remote("backup", "/srv/backup.git").unwrap();
    assert_eq!(hosted_elsewhere(&repo).unwrap(), None);
    repo.remote("hub", "git@github.com:foo/bar.git").unwrap();
    repo.remote("web", "https://github.com/foo/bar").unwrap();
    assert_eq!(hosted_elsewhere(&repo).unwrap(), Some("git@github.com:foo/bar.git".to_owned()));
}

#[test]
fn prepared_walk_starts_at_the_commit_given() {
    let root = tempfile::tempdir().unwrap();
    let repo = init_repo(&root.path().join("repo"));
    let first = commit_at(&repo, "refs/heads/main", 10, 10);
    let second = commit_at(&repo, "refs/heads/main", 20, 20);
    let third = commit_at(&repo, "refs/heads/main", 30, 30);
    let walk = prepare_walk(&repo, second).unwrap();
    let yielded: Vec<git2::Oid> = walk.map(|commit| commit.unwrap()).collect();
    assert_eq!(yielded, vec![second, first]);
    assert_eq!(walk_history(&repo, third).unwrap(), vec![30, 20, 10]);
    assert_eq!(walk_history(&repo, first).unwrap(), vec![10]);
    let nowhere = git2::Oid::from_str("0123456789abcdef0123456789abcdef01234567").unwrap();
    assert!(matches!(prepare_walk(&repo, nowhere), Err(ScanError::Git(_))));
    assert!(matches!(walk_history(&repo, nowhere), Err(ScanError::Git(_))));
}
