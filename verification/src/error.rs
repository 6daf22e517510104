//! The ways in which creating or finishing a branch can fail.

use vstd::prelude::*;
use vstd::string::*;
use crate::text::{decimal, decimal_spec};

verus! {

/// A failure of one step of a workflow.
#[derive(Debug, Clone, PartialEq, Eq)]
pub enum GwfError {
    /// No repository was found at the working directory.
    RepositoryNotFound,
    /// `HEAD` is unborn: there is no commit to build on.
    NoCommitsYet,
    /// `HEAD` does not point at a branch.
    DetachedHead,
    /// The branch name does not have two or three segments; carries the name.
    InvalidBranchFormat(String),
    /// A branch of the encoded name exists already.
    BranchAlreadyExists,
    /// No pending message is stored for the branch.
    NotFound,
    /// The file system failed; carries what it reported.
    Io(String),
    /// The configuration file could not be read or parsed.
    ConfigUnreadable,
    /// The post-commit command ended unsuccessfully; carries its exit code.
    PostCommitCommandFailed(i32),
}

/// The mathematical value of a `GwfError`.
pub enum GwfErrorView {
    RepositoryNotFound,
    NoCommitsYet,
    DetachedHead,
    InvalidBranchFormat(Seq<char>),
    BranchAlreadyExists,
    NotFound,
    Io(Seq<char>),
    ConfigUnreadable,
    PostCommitCommandFailed(i32),
}

impl View for GwfError {
    type V = GwfErrorView;

    open spec fn view(&self) -> GwfErrorView {
        match self {
            GwfError::RepositoryNotFound => GwfErrorView::RepositoryNotFound,
            GwfError::NoCommitsYet => GwfErrorView::NoCommitsYet,
            GwfError::DetachedHead => GwfErrorView::DetachedHead,
            GwfError::InvalidBranchFormat(name) => GwfErrorView::InvalidBranchFormat(name@),
            GwfError::BranchAlreadyExists => GwfErrorView::BranchAlreadyExists,
            GwfError::NotFound => GwfErrorView::NotFound,
            GwfError::Io(detail) => GwfErrorView::Io(detail@),
            GwfError::ConfigUnreadable => GwfErrorView::ConfigUnreadable,
            GwfError::PostCommitCommandFailed(code) => GwfErrorView::PostCommitCommandFailed(*code),
        }
    }
}

/// The words that describe a failure to the user.
pub open spec fn describe_spec(e: GwfErrorView) -> Seq<char> {
    match e {
        GwfErrorView::RepositoryNotFound => "Could not find a repository at the working directory"@,
        GwfErrorView::NoCommitsYet => "The repository has no commits yet"@,
        GwfErrorView::DetachedHead => "Could not get current branch name"@,
        GwfErrorView::InvalidBranchFormat(name) =>
            "Invalid branch name format. Expected: type/scope/message or type/message, got: "@ + name,
        GwfErrorView::BranchAlreadyExists => "A branch of this name exists already"@,
        GwfErrorView::NotFound => "No pending commit message is stored for the current branch"@,
        GwfErrorView::Io(detail) => "File system error: "@ + detail,
        GwfErrorView::ConfigUnreadable => "Could not read the configuration"@,
        GwfErrorView::PostCommitCommandFailed(code) => "Post-commit command failed with exit code: "@
            + decimal_spec(code as int),
    }
}

impl GwfError {
    /// Describes the failure in words, for the error stream.
    pub fn describe(&self) -> (words: String)
        ensures
            words@ == describe_spec(self@),
    {
        match self {
            GwfError::RepositoryNotFound => String::from_str(
                "Could not find a repository at the working directory",
            ),
            GwfError::NoCommitsYet => String::from_str("The repository has no commits yet"),
            GwfError::DetachedHead => String::from_str("Could not get current branch name"),
            GwfError::InvalidBranchFormat(name) => {
                let mut words = String::from_str(
                    "Invalid branch name format. Expected: type/scope/message or type/message, got: ",
                );
                words.append(name.as_str());
                words
            },
            GwfError::BranchAlreadyExists => String::from_str("A branch of this name exists already"),
            GwfError::NotFound => String::from_str(
                "No pending commit message is stored for the current branch",
            ),
            GwfError::Io(detail) => {
                let mut words = String::from_str("File system error: ");
                words.append(detail.as_str());
                words
            },
            GwfError::ConfigUnreadable => String::from_str("Could not read the configuration"),
            GwfError::PostCommitCommandFailed(code) => {
                let mut words = String::from_str("Post-commit command failed with exit code: ");
                words.append(decimal(*code).as_str());
                words
            },
        }
    }
}

} // verus!
