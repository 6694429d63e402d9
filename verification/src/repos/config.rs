//! Which directory trees are searched for repositories, and what the
//! repositories found in them are called.

use vstd::prelude::*;
use vstd::std_specs::convert::FromSpecImpl;
use vstd::string::StringExecFns;
use std::path::Path;
use std::path::PathBuf;
use super::naming::name_of;
use super::naming::text_view;
use super::paths::path_from_text;
use super::paths::path_of_text;
use super::paths::path_owned;
use super::paths::path_shown;
use super::paths::path_suffix;
use super::paths::path_text;
use super::paths::to_owned_path;
use super::text::has_prefix;
use super::text::lemma_concat_has_prefix;

verus! {


/// One directory tree to search for repositories.
#[derive(Debug, Clone, Eq, PartialEq)]
pub struct TreeConfig {
    /// The directory under which repositories are looked for.
    pub root: PathBuf,
    /// The text that takes the place of `root` in the names of the
    /// repositories found, if any.
    pub replace_root: Option<String>,
}

impl TreeConfig {
    /// The replacement for the root, as a sequence of characters.
    pub open spec fn replacement(self) -> Option<Seq<char>> {
        match self.replace_root {
            Some(text) => Some(text@),
            None => None,
        }
    }

    /// The name that this tree gives to a repository found at `path`.
    pub open spec fn name_at(self, path: PathBuf) -> Seq<char> {
        name_of(self.root, self.replacement(), path)
    }
}

/// Owns an optional text.
fn own_text(text: Option<&str>) -> (owned: Option<String>)
    ensures
        owned is Some <==> text is Some,
        owned matches Some(o) ==> o@ == text->0@,
{
    match text {
        Some(t) => Some(String::from_str(t)),
        None => None,
    }
}

/// A root given as text, with an optional replacement. The conversion owns
/// a copy of the replacement, so what it gives is stated by the text that
/// the copy holds.
impl From<(&str, Option<&str>)> for TreeConfig {
    fn from(pair: (&str, Option<&str>)) -> (tree: TreeConfig)
        ensures
            tree.root == path_of_text(pair.0@),
            tree.replacement() == text_view(pair.1),
    {
        TreeConfig { root: path_from_text(pair.0), replace_root: own_text(pair.1) }
    }
}

impl FromSpecImpl<(&str, Option<&str>)> for TreeConfig {
    open spec fn obeys_from_spec() -> bool {
        false
    }

    open spec fn from_spec(pair: (&str, Option<&str>)) -> TreeConfig {
        arbitrary()
    }
}

/// A root given as a borrowed path, with an optional replacement.
impl From<(&Path, Option<&str>)> for TreeConfig {
    fn from(pair: (&Path, Option<&str>)) -> (tree: TreeConfig)
        ensures
            tree.root == path_owned(pair.0),
            tree.replacement() == text_view(pair.1),
    {
        TreeConfig { root: to_owned_path(pair.0), replace_root: own_text(pair.1) }
    }
}

impl FromSpecImpl<(&Path, Option<&str>)> for TreeConfig {
    open spec fn obeys_from_spec() -> bool {
        false
    }

    open spec fn from_spec(pair: (&Path, Option<&str>)) -> TreeConfig {
        arbitrary()
    }
}

/// A root given as an owned path, with an optional replacement.
impl From<(PathBuf, Option<&str>)> for TreeConfig {
    fn from(pair: (PathBuf, Option<&str>)) -> (tree: TreeConfig)
        ensures
            tree.root == pair.0,
            tree.replacement() == text_view(pair.1),
    {
        TreeConfig { root: pair.0, replace_root: own_text(pair.1) }
    }
}

impl FromSpecImpl<(PathBuf, Option<&str>)> for TreeConfig {
    open spec fn obeys_from_spec() -> bool {
        false
    }

    open spec fn from_spec(pair: (PathBuf, Option<&str>)) -> TreeConfig {
        arbitrary()
    }
}

/// A root given as a borrowed path, without a replacement.
impl From<&Path> for TreeConfig {
    fn from(root: &Path) -> (tree: TreeConfig)
        ensures
            tree.root == path_owned(root),
            tree.replace_root is None,
    {
        TreeConfig { root: to_owned_path(root), replace_root: None }
    }
}

impl FromSpecImpl<&Path> for TreeConfig {
    open spec fn obeys_from_spec() -> bool {
        true
    }

    open spec fn from_spec(root: &Path) -> TreeConfig {
        TreeConfig { root: path_owned(root), replace_root: None }
    }
}

/// A root given as an owned path, without a replacement.
impl From<PathBuf> for TreeConfig {
    fn from(root: PathBuf) -> (tree: TreeConfig)
        ensures
            tree.root == root,
            tree.replace_root is None,
    {
        TreeConfig { root, replace_root: None }
    }
}

impl FromSpecImpl<PathBuf> for TreeConfig {
    open spec fn obeys_from_spec() -> bool {
        true
    }

    open spec fn from_spec(root: PathBuf) -> TreeConfig {
        TreeConfig { root, replace_root: None }
    }
}

/// Without a replacement, the name that a tree gives to a path is the text
/// of the path, unchanged.
pub proof fn lemma_name_without_replacement(tree: TreeConfig, path: PathBuf)
    requires
        tree.replace_root is None,
    ensures
        tree.name_at(path) == path_text(path),
{
}

/// With a replacement, the name that a tree gives to a path is the
/// replacement followed at once by what is left of the path when the root
/// is taken away from its front.
pub proof fn lemma_name_with_replacement(tree: TreeConfig, path: PathBuf)
    requires
        tree.replace_root is Some,
    ensures
        tree.name_at(path) == tree.replacement()->0 + path_shown(path_suffix(path, tree.root)->0),
        has_prefix(tree.name_at(path), tree.replacement()->0),
{
    lemma_concat_has_prefix(tree.replacement()->0, path_shown(path_suffix(path, tree.root)->0));
}

/// The directory trees to search, in the order in which they are searched.
#[derive(Debug, Clone, Eq, PartialEq)]
pub struct Config {
    /// The trees to search for repositories.
    pub repos: Vec<TreeConfig>,
}

impl Config {
    /// A configuration with a single tree: the one that `tree` converts
    /// into.
    pub fn with_tree<T: Into<TreeConfig>>(tree: T) -> (config: Config)
        ensures
            config.repos@.len() == 1,
            call_ensures(<T as Into<TreeConfig>>::into, (tree,), config.repos@[0]),
    {
        let mut repos: Vec<TreeConfig> = Vec::new();
        repos.push(tree.into());
        Config { repos }
    }
}

} // verus!
