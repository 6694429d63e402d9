//! The name under which a discovered repository is reported.

use vstd::prelude::*;
use vstd::string::StringExecFns;
use std::path::PathBuf;
use super::paths::lies_under;
use super::paths::lossy_text;
use super::paths::path_shown;
use super::paths::path_suffix;
use super::paths::path_text;
use super::paths::shown_text;
use super::paths::strip_prefix;
use super::text::has_prefix;
use super::text::lemma_concat_has_prefix;

verus! {

/// The name of the repository found at `path` in the tree under `root`.
///
/// Without a replacement the name is the text of the path. With one, the
/// root is taken away from the front of the path and the replacement is put
/// in its place, with nothing between the two.
pub open spec fn name_of(root: PathBuf, replace_root: Option<Seq<char>>, path: PathBuf) -> Seq<
    char,
> {
    match replace_root {
        Some(prefix) => prefix + path_shown(path_suffix(path, root)->0),
        None => path_text(path),
    }
}

/// A name can be derived unless a replacement is asked for and the path
/// does not lie under the root.
pub open spec fn nameable(root: PathBuf, replace_root: Option<Seq<char>>, path: PathBuf) -> bool {
    replace_root is Some ==> lies_under(path, root)
}

/// The view of an optional text.
pub open spec fn text_view(text: Option<&str>) -> Option<Seq<char>> {
    match text {
        Some(t) => Some(t@),
        None => None,
    }
}

/// Puts the replacement for the root in front of what is left of a path,
/// with nothing between the two.
pub fn join_name(prefix: &str, shown: &str) -> (name: String)
    ensures
        name@ == prefix@ + shown@,
{
    String::from_str(prefix).concat(shown)
}

/// Derives the name of the repository found at `path`.
pub fn get_name(root: &PathBuf, replace_root: Option<&str>, path: &PathBuf) -> (name: String)
    requires
        nameable(*root, text_view(replace_root), *path),
    ensures
        name@ == name_of(*root, text_view(replace_root), *path),
        replace_root is None ==> name@ == path_text(*path),
        replace_root matches Some(prefix) ==> has_prefix(name@, prefix@),
{
    match replace_root {
        Some(prefix) => {
            match strip_prefix(path, root) {
                Some(suffix) => {
                    let shown = shown_text(&suffix);
                    proof {
                        lemma_concat_has_prefix(prefix@, shown@);
                    }
                    join_name(prefix, shown.as_str())
                },
                None => {
                    proof {
                        assert(false);
                    }
                    String::new()
                },
            }
        },
        None => lossy_text(path),
    }
}

/// Derives the name of the repository found at `path`, or `None` where a
/// replacement is asked for and `path` does not lie under `root`.
pub fn try_get_name(root: &PathBuf, replace_root: Option<&str>, path: &PathBuf) -> (name: Option<
    String,
>)
    ensures
        name is Some <==> nameable(*root, text_view(replace_root), *path),
        name matches Some(text) ==> text@ == name_of(*root, text_view(replace_root), *path),
{
    let reachable = match replace_root {
        Some(_) => strip_prefix(path, root).is_some(),
        None => true,
    };
    if reachable {
        Some(get_name(root, replace_root, path))
    } else {
        None
    }
}

} // verus!
