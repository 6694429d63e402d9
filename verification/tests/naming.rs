use repoyear_backend::repos::branch::local_branch_of;
use repoyear_backend::repos::hosting::is_github_url;
use repoyear_backend::repos::naming::get_name;
use repoyear_backend::repos::naming::join_name;
use repoyear_backend::repos::naming::try_get_name;
use repoyear_backend::repos::text::skip_chars;
use repoyear_backend::repos::text::starts_with;
use std::path::PathBuf;

#[test]
fn root_is_replaced_without_a_separator() {
    let root = PathBuf::from("/a");
    let path = PathBuf::from("/a/b/c");
    assert_eq!(get_name(&root, Some("X:"), &path), "X:b/c");
    assert_eq!(try_get_name(&root, Some("X:"), &path), Some("X:b/c".to_owned()));
}

#[test]
fn replacement_alone_names_the_root() {
    let root = PathBuf::from("/srv/git");
    assert_eq!(get_name(&root, Some("BASE"), &root), "BASE");
    assert_eq!(get_name(&root, Some(""), &PathBuf::from("/srv/git/x")), "x");
}

#[test]
fn name_without_replacement_is_the_path() {
    let root = PathBuf::from("/a");
    assert_eq!(get_name(&root, None, &PathBuf::from("/a/b/c")), "/a/b/c");
    assert_eq!(get_name(&root, None, &PathBuf::from("elsewhere/x/")), "elsewhere/x/");
    assert_eq!(try_get_name(&root, None, &PathBuf::from("/b")), Some("/b".to_owned()));
}

#[test]
fn path_outside_the_root_has_no_replaced_name() {
    let root = PathBuf::from("/a");
    assert_eq!(try_get_name(&root, Some("X:"), &PathBuf::from("/ab/c")), None);
    assert_eq!(try_get_name(&root, Some("X:"), &PathBuf::from("/b/a")), None);
}

#[test]
fn prefixes_are_compared_by_character() {
    assert!(starts_with("refs/remotes/origin", "refs/"));
    assert!(starts_with("abc", "abc"));
    assert!(starts_with("abc", ""));
    assert!(!starts_with("ab", "abc"));
    assert!(!starts_with("abd", "abc"));
    assert!(starts_with("äöü", "äö"));
    assert!(!starts_with("äöü", "ao"));
    assert_eq!(skip_chars("äöü", 2), "ü");
    assert_eq!(skip_chars("abc", 0), "abc");
    assert_eq!(skip_chars("abc", 3), "");
}

#[test]
fn github_urls_are_recognized_by_their_beginning() {
    assert!(is_github_url("https://github.com/foo/bar"));
    assert!(is_github_url("git@github.com:foo/bar.git"));
    assert!(is_github_url("https://github.com/"));
    assert!(!is_github_url("https://github.com"));
    assert!(!is_github_url("http://github.com/foo/bar"));
    assert!(!is_github_url("ssh://git@github.com/foo/bar"));
    assert!(!is_github_url("https://gitlab.com/foo/bar"));
    assert!(!is_github_url(" https://github.com/foo/bar"));
    assert!(!is_github_url("HTTPS://GITHUB.COM/foo"));
    assert!(!is_github_url(""));
}

#[test]
fn branch_is_what_follows_the_remote() {
    assert_eq!(local_branch_of("refs/remotes/origin/dev", "origin"), Some("dev".to_owned()));
    assert_eq!(
        local_branch_of("refs/remotes/origin/feature/x", "origin"),
        Some("feature/x".to_owned())
    );
    assert_eq!(local_branch_of("refs/remotes/origin/", "origin"), Some(String::new()));
    assert_eq!(local_branch_of("refs/remotes/upstream/main", "upstream"), Some("main".to_owned()));
}

#[test]
fn target_of_another_shape_names_no_branch() {
    assert_eq!(local_branch_of("refs/remotes/origin", "origin"), None);
    assert_eq!(local_branch_of("refs/heads/dev", "origin"), None);
    assert_eq!(local_branch_of("refs/remotes/upstream/dev", "origin"), None);
    assert_eq!(local_branch_of("refs/remotes/originals/dev", "origin"), None);
    assert_eq!(local_branch_of("", "origin"), None);
}

#[test]
fn replacement_and_rest_are_joined_as_they_are() {
    assert_eq!(join_name("X:", "b/c"), "X:b/c");
    assert_eq!(join_name("", "b"), "b");
    assert_eq!(join_name("BASE", ""), "BASE");
    assert_eq!(join_name("a/", "/b"), "a//b");
}
