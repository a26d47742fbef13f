//! The errors that end the daemon, and the message each one is reported with.

use crate::text::{decimal, decimal_text};
use vstd::prelude::*;
use vstd::string::*;

verus! {

/// Why the daemon stopped.
#[derive(Debug, Clone, PartialEq, Eq)]
pub enum BrunError {
    /// Neither token variable is set.
    MissingToken,
    /// The work tree has uncommitted changes.
    GitDirty,
    /// The remote branch has no commit.
    GitEmptyHistory,
    /// The current directory is not inside a work tree.
    GitNotinWorkTree,
    /// The branch of HEAD could not be read: exit code and standard error.
    GitNoHead(i32, String),
    /// The branch has no upstream: exit code and standard error.
    GitNoUpstream(i32, String),
    /// The remote has no URL: exit code and standard error.
    GitNoUpstreamURL(i32, String),
    /// The remote could not be told from the upstream or its URL.
    GitBadRemote(String),
    /// The pull ended with a failure: exit code and standard error.
    PullFailed(i32, String),
    /// The user command ended with a failure: exit code and standard error.
    UserCommand(i32, String),
    /// The command could not be started.
    CommandFailure(String),
    /// The command was ended by a signal, without an exit code.
    CommandSignaled(String),
    /// Standard output could not be written.
    IOError(String),
    /// The request to the remote host failed.
    APIError(String),
    /// A reply did not have the shape that its parser relies on.
    InternalError(String),
}

/// The mathematical value of a [`BrunError`].
pub enum BrunErrorView {
    MissingToken,
    GitDirty,
    GitEmptyHistory,
    GitNotinWorkTree,
    GitNoHead(i32, Seq<char>),
    GitNoUpstream(i32, Seq<char>),
    GitNoUpstreamURL(i32, Seq<char>),
    GitBadRemote(Seq<char>),
    PullFailed(i32, Seq<char>),
    UserCommand(i32, Seq<char>),
    CommandFailure(Seq<char>),
    CommandSignaled(Seq<char>),
    IOError(Seq<char>),
    APIError(Seq<char>),
    InternalError(Seq<char>),
}

impl View for BrunError {
    type V = BrunErrorView;

    open spec fn view(&self) -> BrunErrorView {
        match *self {
            BrunError::MissingToken => BrunErrorView::MissingToken,
            BrunError::GitDirty => BrunErrorView::GitDirty,
            BrunError::GitEmptyHistory => BrunErrorView::GitEmptyHistory,
            BrunError::GitNotinWorkTree => BrunErrorView::GitNotinWorkTree,
            BrunError::GitNoHead(code, detail) => BrunErrorView::GitNoHead(code, detail@),
            BrunError::GitNoUpstream(code, detail) => BrunErrorView::GitNoUpstream(code, detail@),
            BrunError::GitNoUpstreamURL(code, detail) => BrunErrorView::GitNoUpstreamURL(
                code,
                detail@,
            ),
            BrunError::GitBadRemote(detail) => BrunErrorView::GitBadRemote(detail@),
            BrunError::PullFailed(code, detail) => BrunErrorView::PullFailed(code, detail@),
            BrunError::UserCommand(code, detail) => BrunErrorView::UserCommand(code, detail@),
            BrunError::CommandFailure(detail) => BrunErrorView::CommandFailure(detail@),
            BrunError::CommandSignaled(detail) => BrunErrorView::CommandSignaled(detail@),
            BrunError::IOError(detail) => BrunErrorView::IOError(detail@),
            BrunError::APIError(detail) => BrunErrorView::APIError(detail@),
            BrunError::InternalError(detail) => BrunErrorView::InternalError(detail@),
        }
    }
}

/// The mathematical value of a text or the error in its place.
pub open spec fn text_outcome(r: Result<String, BrunError>) -> Result<Seq<char>, BrunErrorView> {
    match r {
        Ok(text) => Ok(text@),
        Err(error) => Err(error@),
    }
}

/// The mathematical value of a success without a value, or the error in its place.
pub open spec fn unit_outcome(r: Result<(), BrunError>) -> Result<(), BrunErrorView> {
    match r {
        Ok(_) => Ok(()),
        Err(error) => Err(error@),
    }
}

/// The mathematical value of an answer of yes or no, or the error in its place.
pub open spec fn flag_outcome(r: Result<bool, BrunError>) -> Result<bool, BrunErrorView> {
    match r {
        Ok(flag) => Ok(flag),
        Err(error) => Err(error@),
    }
}

/// The mathematical value of a pair of texts or the error in its place.
pub open spec fn pair_outcome(r: Result<(String, String), BrunError>) -> Result<
    (Seq<char>, Seq<char>),
    BrunErrorView,
> {
    match r {
        Ok(pair) => Ok((pair.0@, pair.1@)),
        Err(error) => Err(error@),
    }
}

/// `what`, the exit code in brackets, a colon and the detail.
pub open spec fn with_code(what: Seq<char>, code: i32, detail: Seq<char>) -> Seq<char> {
    what + " (code="@ + decimal(code as int) + "): "@ + detail
}

impl BrunErrorView {
    /// The message that the error is reported with.
    pub open spec fn message(self) -> Seq<char> {
        match self {
            BrunErrorView::MissingToken =>
                "you must set the GH_TOKEN or GITHUB_TOKEN environment variable"@,
            BrunErrorView::GitDirty =>
                "there are uncommitted changes. Run `git commit`or `git stash` to save the changes and try again."@,
            BrunErrorView::GitEmptyHistory => "remote repository has no commits"@,
            BrunErrorView::GitNotinWorkTree =>
                "you are not in a git repository (or you are inside the .git directory)"@,
            BrunErrorView::GitNoHead(code, detail) => with_code(
                "failed to retrieve HEAD branch"@,
                code,
                detail,
            ),
            BrunErrorView::GitNoUpstream(code, detail) => with_code(
                "failed to get upstream branch"@,
                code,
                detail,
            ),
            BrunErrorView::GitNoUpstreamURL(code, detail) => with_code(
                "failed to get remote url"@,
                code,
                detail,
            ),
            BrunErrorView::GitBadRemote(detail) =>
                "could not get remote name from upstream branch: "@ + detail,
            BrunErrorView::PullFailed(code, detail) => with_code(
                "failed to pull the latest changes"@,
                code,
                detail,
            ),
            BrunErrorView::UserCommand(code, detail) => with_code(
                "user command failed"@,
                code,
                detail,
            ),
            BrunErrorView::CommandFailure(detail) => "failed to start command: "@ + detail,
            BrunErrorView::CommandSignaled(detail) =>
                "command stopped without status due to signal: "@ + detail,
            BrunErrorView::IOError(detail) => "IOError: "@ + detail,
            BrunErrorView::APIError(detail) => "failed to request API: "@ + detail,
            BrunErrorView::InternalError(detail) => "error: "@ + detail,
        }
    }
}

/// Renders `what`, the exit code in brackets, a colon and the detail.
fn coded(what: &str, code: i32, detail: &str) -> (text: String)
    ensures
        text@ == with_code(what@, code, detail@),
{
    let mut text = String::from_str(what);
    text.append(" (code=");
    let number = decimal_text(code);
    text.append(number.as_str());
    text.append("): ");
    text.append(detail);
    text
}

/// Renders `what` followed by the detail.
fn detailed(what: &str, detail: &str) -> (text: String)
    ensures
        text@ == what@ + detail@,
{
    let mut text = String::from_str(what);
    text.append(detail);
    text
}

impl BrunError {
    /// The message that the error is reported with.
    pub fn message(&self) -> (text: String)
        ensures
            text@ == self@.message(),
    {
        match self {
            BrunError::MissingToken => String::from_str(
                "you must set the GH_TOKEN or GITHUB_TOKEN environment variable",
            ),
            BrunError::GitDirty => String::from_str(
                "there are uncommitted changes. Run `git commit`or `git stash` to save the changes and try again.",
            ),
            BrunError::GitEmptyHistory => String::from_str("remote repository has no commits"),
            BrunError::GitNotinWorkTree => String::from_str(
                "you are not in a git repository (or you are inside the .git directory)",
            ),
            BrunError::GitNoHead(code, detail) => coded(
                "failed to retrieve HEAD branch",
                *code,
                detail.as_str(),
            ),
            BrunError::GitNoUpstream(code, detail) => coded(
                "failed to get upstream branch",
                *code,
                detail.as_str(),
            ),
            BrunError::GitNoUpstreamURL(code, detail) => coded(
                "failed to get remote url",
                *code,
                detail.as_str(),
            ),
            BrunError::GitBadRemote(detail) => detailed(
                "could not get remote name from upstream branch: ",
                detail.as_str(),
            ),
            BrunError::PullFailed(code, detail) => coded(
                "failed to pull the latest changes",
                *code,
                detail.as_str(),
            ),
            BrunError::UserCommand(code, detail) => coded(
                "user command failed",
                *code,
                detail.as_str(),
            ),
            BrunError::CommandFailure(detail) => detailed(
                "failed to start command: ",
                detail.as_str(),
            ),
            BrunError::CommandSignaled(detail) => detailed(
                "command stopped without status due to signal: ",
                detail.as_str(),
            ),
            BrunError::IOError(detail) => detailed("IOError: ", detail.as_str()),
            BrunError::APIError(detail) => detailed("failed to request API: ", detail.as_str()),
            BrunError::InternalError(detail) => detailed("error: ", detail.as_str()),
        }
    }
}

} // verus!
