//! Remotes whose history is already kept by a hosting provider.

use vstd::prelude::*;
use super::text::has_prefix;
use super::text::lemma_concat_has_prefix;
use super::text::starts_with;

verus! {

/// The form of a GitHub URL that is reached over SSH.
pub open spec fn github_ssh_prefix() -> Seq<char> {
    "git@github.com:"@
}

/// The form of a GitHub URL that is reached over HTTPS.
pub open spec fn github_https_prefix() -> Seq<char> {
    "https://github.com/"@
}

/// A URL points at GitHub when it begins with one of the two known forms.
pub open spec fn is_github(url: Seq<char>) -> bool {
    has_prefix(url, github_ssh_prefix()) || has_prefix(url, github_https_prefix())
}

/// Whatever follows one of the two known forms, the URL points at GitHub.
pub proof fn lemma_github_forms(rest: Seq<char>)
    ensures
        is_github(github_ssh_prefix() + rest),
        is_github(github_https_prefix() + rest),
{
    lemma_concat_has_prefix(github_ssh_prefix(), rest);
    lemma_concat_has_prefix(github_https_prefix(), rest);
}

/// Tells whether a remote URL points at GitHub.
pub fn is_github_url(url: &str) -> (hosted: bool)
    ensures
        hosted == is_github(url@),
{
    starts_with(url, "git@github.com:") || starts_with(url, "https://github.com/")
}

} // verus!
