use git2::Repository;
use repoyear_backend::repos::Config;
use repoyear_backend::repos::RepoIterError;
use repoyear_backend::repos::TreeConfig;
use std::path::Path;
use std::path::PathBuf;

type SummarizedRepo = Result<(String, PathBuf), String>;

fn init_repo(path: &Path) -> Repository {
    let mut options = git2::RepositoryInitOptions::new();
    options.initial_head("main");
    Repository::init_opts(path, &options).unwrap()
}

fn make_commit(repo: &Repository, n: i64) -> git2::Oid {
    let when = git2::Time::new(1_000_000 + n, 0);
    let signature = git2::Signature::new("Name", "name@example.com", &when).unwrap();
    let tree_id = repo.treebuilder(None).unwrap().write().unwrap();
    let tree = repo.find_tree(tree_id).unwrap();
    let parents: Vec<git2::Commit> = match repo.head() {
        Ok(head) => vec![head.peel_to_commit().unwrap()],
        Err(_) => Vec::new(),
    };
    let parent_refs: Vec<&git2::Commit> = parents.iter().collect();
    repo.commit(Some("HEAD"), &signature, &signature, &format!("commit {n}"), &tree, &parent_refs)
        .unwrap()
}

fn summarize_repo(result: Result<(String, Repository), RepoIterError>) -> SummarizedRepo {
    match result {
        Ok((name, repo)) => Ok((name, repo.path().to_owned())),
        Err(error) => Err(format!("{error:?}")),
    }
}

fn summarize_config(config: Config) -> Vec<SummarizedRepo> {
    let mut found = Vec::new();
    let mut iter = config.repo_iter();
    while let Some(item) = iter.next() {
        found.push(summarize_repo(item));
    }
    found.sort();
    found
}

fn config_from_toml(input: &str) -> Config {
    let table: toml::Table = input.parse().unwrap();
    let trees = table["repos"].as_array().unwrap();
    let repos = trees
        .iter()
        .map(|tree| TreeConfig {
            root: PathBuf::from(tree["root"].as_str().unwrap()),
            replace_root: tree.get("replace_root").map(|text| text.as_str().unwrap().to_owned()),
        })
        .collect();
    Config { repos }
}

#[test]
fn empty_config() {
    let config = config_from_toml("repos = []\n");
    let mut iter = config.repo_iter();
    let mut items = Vec::new();
    while let Some(item) = iter.next() {
        items.push(item);
    }
    assert!(items.is_empty());
}

#[test]
fn tree_no_repos() {
    let home = tempfile::tempdir().unwrap();
    fs_err::create_dir_all(home.path().join("a/b/c1")).unwrap();
    fs_err::create_dir_all(home.path().join("a/b/c2")).unwrap();
    fs_err::write(home.path().join("a/foo"), "n/a\n").unwrap();

    assert!(summarize_config(Config::with_tree(home.path())) == []);
}

#[test]
fn tree_is_repo_unnamed() {
    let home = tempfile::tempdir().unwrap();
    let path = home.path().join("repo");
    let repo = init_repo(&path);
    make_commit(&repo, 0);

    assert!(
        summarize_config(Config::with_tree(path.as_path()))
            == [Ok((path.to_string_lossy().into_owned(), path.join(".git")))]
    );
}

#[test]
fn tree_is_repo_named() {
    let home = tempfile::tempdir().unwrap();
    let path = home.path().join("repo");
    let repo = init_repo(&path);
    make_commit(&repo, 0);

    assert!(
        summarize_config(Config::with_tree((path.as_path(), Some("BASE"))))
            == [Ok(("BASE".to_owned(), path.join(".git")))]
    );
}

#[test]
fn tree_contains_repos_named() {
    let home = tempfile::tempdir().unwrap();
    fs_err::write(home.path().join(".gitconfig"), "[user]\nname = Name\n").unwrap();
    let repo1 = home.path().join("repos/one");
    let repo2 = home.path().join("repos/two");
    let repo3 = home.path().join("three");
    init_repo(&repo1);
    init_repo(&repo2);
    init_repo(&repo3);

    assert!(
        summarize_config(Config::with_tree((home.path(), Some("BASE"))))
            == [
                Ok(("BASErepos/one".to_owned(), repo1.join(".git"))),
                Ok(("BASErepos/two".to_owned(), repo2.join(".git"))),
                Ok(("BASEthree".to_owned(), repo3.join(".git")))
            ]
    );
}

#[test]
fn tree_contains_symlinked_repo_unnamed() {
    let home = tempfile::tempdir().unwrap();
    let repo = home.path().join("real/repo");
    init_repo(&repo);
    fs_err::create_dir_all(home.path().join("base")).unwrap();
    fs_err::os::unix::fs::symlink(&repo, home.path().join("base/link")).unwrap();

    assert!(
        summarize_config(Config::with_tree(home.path().join("base")))
            == [Ok((
                home.path().join("base/link").to_string_lossy().into_owned(),
                repo.join(".git")
            ))]
    );
}

#[test]
fn tree_contains_symlinked_repo_named() {
    let home = tempfile::tempdir().unwrap();
    let repo = home.path().join("real/repo");
    init_repo(&repo);
    fs_err::create_dir_all(home.path().join("base")).unwrap();
    fs_err::os::unix::fs::symlink(&repo, home.path().join("base/link")).unwrap();

    assert!(
        summarize_config(Config::with_tree((home.path().join("base"), Some("BASE"))))
            == [Ok(("BASElink".to_owned(), repo.join(".git")))]
    );
}

#[test]
fn nested_repositories_are_not_reported() {
    let home = tempfile::tempdir().unwrap();
    let outer = home.path().join("outer");
    init_repo(&outer);
    init_repo(&outer.join("inner"));
    init_repo(&outer.join("deep/er/inner"));

    assert!(
        summarize_config(Config::with_tree(home.path()))
            == [Ok((outer.to_string_lossy().into_owned(), outer.join(".git")))]
    );
}

#[test]
fn trees_are_searched_in_order() {
    let home = tempfile::tempdir().unwrap();
    let first = home.path().join("first");
    let second = home.path().join("second");
    init_repo(&first.join("z"));
    init_repo(&second.join("a"));
    let config = Config {
        repos: vec![
            TreeConfig::from((first.clone(), Some("1:"))),
            TreeConfig::from((home.path().join("missing"), None)),
            TreeConfig::from((second.as_path(), Some("2:"))),
        ],
    };
    let mut iter = config.repo_iter();
    let mut names = Vec::new();
    while let Some(item) = iter.next() {
        names.push(item.map(|(name, _)| name).map_err(|error| matches!(error, RepoIterError::Walkdir(_))));
    }
    assert_eq!(names, vec![Ok("1:z".to_owned()), Err(true), Ok("2:a".to_owned())]);
}

#[test]
fn tree_config_conversions() {
    let from_text = TreeConfig::from(("/srv/git", Some("oxidized.org:git")));
    assert_eq!(
        from_text,
        TreeConfig {
            root: PathBuf::from("/srv/git"),
            replace_root: Some("oxidized.org:git".to_owned()),
        }
    );
    let from_path = TreeConfig::from(Path::new("/home/daniel/special-repo"));
    assert_eq!(
        from_path,
        TreeConfig { root: PathBuf::from("/home/daniel/special-repo"), replace_root: None }
    );
    let from_owned = TreeConfig::from(PathBuf::from("/x"));
    assert_eq!(from_owned, TreeConfig { root: PathBuf::from("/x"), replace_root: None });
    let config = Config::with_tree(("/srv/git", None));
    assert_eq!(
        config,
        Config { repos: vec![TreeConfig { root: PathBuf::from("/srv/git"), replace_root: None }] }
    );
}

#[test]
fn link_to_an_ancestor_is_a_failure_of_the_walk() {
    let home = tempfile::tempdir().unwrap();
    let base = home.path().join("base");
    fs_err::create_dir_all(base.join("a")).unwrap();
    fs_err::os::unix::fs::symlink(&base, base.join("a/up")).unwrap();
    init_repo(&base.join("b"));

    let config = Config::with_tree((base.as_path(), Some("")));
    let mut iter = config.repo_iter();
    let mut names = Vec::new();
    let mut failures = Vec::new();
    while let Some(item) = iter.next() {
        match item {
            Ok((name, _)) => names.push(name),
            Err(error) => failures.push(error),
        }
    }
    assert_eq!(names, vec!["b".to_owned()]);
    assert_eq!(failures.len(), 1);
    assert!(matches!(&failures[0], RepoIterError::Walkdir(_)));
    assert!(failures[0].message().starts_with("File system loop found"));
}

#[test]
fn exhausted_search_stays_exhausted() {
    let home = tempfile::tempdir().unwrap();
    init_repo(&home.path().join("only"));
    let tree = TreeConfig::from(home.path());
    let mut iter = tree.repo_iter();
    assert!(matches!(iter.next(), Some(Ok(_))));
    assert!(iter.next().is_none());
    assert!(iter.next().is_none());
}

#[test]
fn file_as_root_holds_no_repository() {
    let home = tempfile::tempdir().unwrap();
    fs_err::write(home.path().join("file"), "text").unwrap();
    assert!(summarize_config(Config::with_tree(home.path().join("file"))) == []);
}
