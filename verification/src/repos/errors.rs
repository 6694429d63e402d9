//! What can go wrong while repositories are found and read.

use vstd::prelude::*;
use vstd::string::StringExecFns;
use super::git::git_error_message;
use super::git::git_error_text;
use super::walk::walk_error_text;

verus! {

/// A failure met while looking for repositories in a directory tree.
#[derive(Debug)]
pub enum RepoIterError {
    /// The directory tree could not be read at some entry.
    Walkdir(walkdir::Error),
    /// A directory could not be opened as a repository, for a reason other
    /// than its not being one.
    Git(git2::Error),
}

impl RepoIterError {
    /// The message of the failure, as a sequence of characters, where the
    /// failure itself settles it. A failure to read the tree speaks with
    /// the words of the operating system, which it does not settle.
    pub open spec fn message_spec(self) -> Option<Seq<char>> {
        match self {
            RepoIterError::Walkdir(_) => None,
            RepoIterError::Git(error) => Some(git_error_message(error)),
        }
    }

    /// The message of the failure: that of the error it holds.
    pub fn message(&self) -> (text: String)
        ensures
            self.message_spec() matches Some(message) ==> text@ == message,
    {
        match self {
            RepoIterError::Walkdir(error) => walk_error_text(error),
            RepoIterError::Git(error) => git_error_text(error),
        }
    }
}

/// A failure met while the history of one repository is read.
#[derive(Debug)]
pub enum ScanError {
    /// An operation on the repository failed.
    Git(git2::Error),
    /// No step of the search for a default branch found a commit.
    NoDefaultBranch,
}

impl ScanError {
    /// The message of the failure, as a sequence of characters.
    pub open spec fn message_spec(self) -> Seq<char> {
        match self {
            ScanError::Git(error) => git_error_message(error),
            ScanError::NoDefaultBranch => "Could not find a default branch"@,
        }
    }

    /// The message of the failure.
    pub fn message(&self) -> (text: String)
        ensures
            text@ == self.message_spec(),
    {
        match self {
            ScanError::Git(error) => git_error_text(error),
            ScanError::NoDefaultBranch => String::from_str("Could not find a default branch"),
        }
    }
}

} // verus!
