//! The coordinates of the watched branch, and how they are read from the
//! configuration of the local checkout, one answer of `git` at a time.

use crate::error::{BrunError, BrunErrorView};
use crate::git::{
    git_head, git_upstream_info, git_upstream_remote, head_answer, remote_url_line,
    remote_url_query, upstream_info_answer, upstream_line, upstream_query,
    upstream_remote_answer,
};
use crate::process::{CommandLine, CommandLineView, Outcome, OutcomeView};
use vstd::prelude::*;

verus! {

/// Where the watched branch lives on the remote host.
#[derive(Debug, Clone, PartialEq, Eq)]
pub struct RemoteRepo {
    /// The account that owns the repository.
    pub username: String,
    /// The name of the repository.
    pub repo_name: String,
    /// The branch to track.
    pub branch: String,
}

/// The mathematical value of a [`RemoteRepo`].
pub struct RemoteRepoView {
    pub username: Seq<char>,
    pub repo_name: Seq<char>,
    pub branch: Seq<char>,
}

impl View for RemoteRepo {
    type V = RemoteRepoView;

    open spec fn view(&self) -> RemoteRepoView {
        RemoteRepoView {
            username: self.username@,
            repo_name: self.repo_name@,
            branch: self.branch@,
        }
    }
}

/// Which answer of `git` is awaited while the coordinates are read.
#[derive(Debug, Clone, PartialEq, Eq)]
pub enum GitConfig {
    /// The branch that HEAD names.
    Head,
    /// The upstream of the branch.
    Upstream { branch: String },
    /// The URL of the upstream's remote.
    RemoteUrl { branch: String },
}

/// The mathematical value of a [`GitConfig`].
pub enum GitConfigView {
    Head,
    Upstream { branch: Seq<char> },
    RemoteUrl { branch: Seq<char> },
}

impl View for GitConfig {
    type V = GitConfigView;

    open spec fn view(&self) -> GitConfigView {
        match *self {
            GitConfig::Head => GitConfigView::Head,
            GitConfig::Upstream { branch } => GitConfigView::Upstream { branch: branch@ },
            GitConfig::RemoteUrl { branch } => GitConfigView::RemoteUrl { branch: branch@ },
        }
    }
}

/// How far one answer brought the reading of the coordinates.
#[derive(Debug, Clone, PartialEq, Eq)]
pub enum GitConfigStep {
    /// Another question is to be put to `git`.
    Ask(GitConfig, CommandLine),
    /// The coordinates are known.
    Ready(RemoteRepo),
    /// They cannot be had.
    Failed(BrunError),
}

/// The mathematical value of a [`GitConfigStep`].
pub enum GitConfigStepView {
    Ask(GitConfigView, CommandLineView),
    Ready(RemoteRepoView),
    Failed(BrunErrorView),
}

impl View for GitConfigStep {
    type V = GitConfigStepView;

    open spec fn view(&self) -> GitConfigStepView {
        match *self {
            GitConfigStep::Ask(progress, line) => GitConfigStepView::Ask(progress@, line@),
            GitConfigStep::Ready(repo) => GitConfigStepView::Ready(repo@),
            GitConfigStep::Failed(error) => GitConfigStepView::Failed(error@),
        }
    }
}

/// What follows from one answer: the branch leads to the question for its
/// upstream, the upstream's remote to the question for its URL, and the URL
/// to the coordinates. The first answer that cannot be read ends the reading.
pub open spec fn gitconfig_step(progress: GitConfigView, outcome: OutcomeView) -> GitConfigStepView {
    match progress {
        GitConfigView::Head => match head_answer(outcome) {
            Ok(branch) => GitConfigStepView::Ask(
                GitConfigView::Upstream { branch },
                upstream_line(branch),
            ),
            Err(error) => GitConfigStepView::Failed(error),
        },
        GitConfigView::Upstream { branch } => match upstream_remote_answer(outcome) {
            Ok(remote) => GitConfigStepView::Ask(
                GitConfigView::RemoteUrl { branch },
                remote_url_line(remote),
            ),
            Err(error) => GitConfigStepView::Failed(error),
        },
        GitConfigView::RemoteUrl { branch } => match upstream_info_answer(outcome) {
            Ok(pair) => GitConfigStepView::Ready(
                RemoteRepoView { username: pair.0, repo_name: pair.1, branch },
            ),
            Err(error) => GitConfigStepView::Failed(error),
        },
    }
}

impl RemoteRepo {
    /// Takes the reading of the coordinates one answer further: `outcome` is
    /// what `git` answered to the question that `progress` awaits.
    pub fn try_from_gitconfig(progress: GitConfig, outcome: Outcome) -> (step: GitConfigStep)
        ensures
            step@ == gitconfig_step(progress@, outcome@),
    {
        match progress {
            GitConfig::Head => match git_head(outcome) {
                Ok(branch) => {
                    let line = upstream_query(branch.as_str());
                    GitConfigStep::Ask(GitConfig::Upstream { branch }, line)
                },
                Err(error) => GitConfigStep::Failed(error),
            },
            GitConfig::Upstream { branch } => match git_upstream_remote(outcome) {
                Ok(remote) => {
                    let line = remote_url_query(remote.as_str());
                    GitConfigStep::Ask(GitConfig::RemoteUrl { branch }, line)
                },
                Err(error) => GitConfigStep::Failed(error),
            },
            GitConfig::RemoteUrl { branch } => match git_upstream_info(outcome) {
                Ok(pair) => {
                    let (username, repo_name) = pair;
                    GitConfigStep::Ready(RemoteRepo { username, repo_name, branch })
                },
                Err(error) => GitConfigStep::Failed(error),
            },
        }
    }
}

} // verus!
