//! The start of the daemon: the token, the checks on the local checkout and
//! the coordinates of the watched branch, in that order.

use crate::daemon::{GithubState, GithubStateView};
use crate::error::{text_outcome, BrunError, BrunErrorView};
use crate::event::{Event, EventView};
use crate::git::{
    dirty_answer, dirty_line, dirty_query, git_has_unstashed_changes, git_is_work_tree, head_line,
    head_query, work_tree_answer, work_tree_line, work_tree_query,
};
use crate::process::{CommandLine, CommandLineView};
use crate::repo::{
    gitconfig_step, GitConfig, GitConfigStep, GitConfigStepView, GitConfigView, RemoteRepo,
    RemoteRepoView,
};
use vstd::prelude::*;
use vstd::string::*;

verus! {

/// The value of a token variable where it can serve as a token: the
/// variable is set and its value is not empty.
pub open spec fn usable(value: Option<Seq<char>>) -> Option<Seq<char>> {
    match value {
        Some(token) => if token.len() > 0 {
            Some(token)
        } else {
            None
        },
        None => None,
    }
}

/// The token to ask the remote host with: the value of `GH_TOKEN` where it
/// can serve, else that of `GITHUB_TOKEN`.
pub open spec fn chosen_token(gh_token: Option<Seq<char>>, github_token: Option<Seq<char>>) -> Result<
    Seq<char>,
    BrunErrorView,
> {
    match usable(gh_token) {
        Some(token) => Ok(token),
        None => match usable(github_token) {
            Some(token) => Ok(token),
            None => Err(BrunErrorView::MissingToken),
        },
    }
}

/// The value of a token variable where it can serve as a token.
fn usable_token(value: Option<String>) -> (token: Option<String>)
    ensures
        token.deep_view() == usable(value.deep_view()),
{
    match value {
        Some(token) => {
            if token.as_str().is_empty() {
                None
            } else {
                Some(token)
            }
        },
        None => None,
    }
}

/// Chooses the token from the values of `GH_TOKEN` and `GITHUB_TOKEN`. The
/// token that is chosen is never empty.
pub fn select_token(gh_token: Option<String>, github_token: Option<String>) -> (r: Result<
    String,
    BrunError,
>)
    ensures
        text_outcome(r) == chosen_token(gh_token.deep_view(), github_token.deep_view()),
        r matches Ok(token) ==> token@.len() > 0,
{
    match usable_token(gh_token) {
        Some(token) => Ok(token),
        None => match usable_token(github_token) {
            Some(token) => Ok(token),
            None => Err(BrunError::MissingToken),
        },
    }
}

/// What is awaited during the start.
#[derive(Debug, PartialEq, Eq)]
pub enum Setup {
    /// The values of the token variables.
    Token,
    /// Whether the current directory is inside a work tree.
    WorkTree { token: String },
    /// An answer on the way to the coordinates.
    Repo { token: String, progress: GitConfig },
    /// Whether the work tree has uncommitted changes.
    Dirty { token: String, repo: RemoteRepo },
}

/// The mathematical value of a [`Setup`].
pub enum SetupView {
    Token,
    WorkTree { token: Seq<char> },
    Repo { token: Seq<char>, progress: GitConfigView },
    Dirty { token: Seq<char>, repo: RemoteRepoView },
}

impl View for Setup {
    type V = SetupView;

    open spec fn view(&self) -> SetupView {
        match *self {
            Setup::Token => SetupView::Token,
            Setup::WorkTree { token } => SetupView::WorkTree { token: token@ },
            Setup::Repo { token, progress } => SetupView::Repo { token: token@, progress: progress@ },
            Setup::Dirty { token, repo } => SetupView::Dirty { token: token@, repo: repo@ },
        }
    }
}

/// How far one event brought the start.
#[derive(Debug)]
pub enum SetupStep {
    /// Another question is to be put to `git`.
    Ask(Setup, CommandLine),
    /// The start is over: the state that the polling loop begins with.
    Ready(GithubState),
    /// The daemon cannot start.
    Failed(BrunError),
}

/// The mathematical value of a [`SetupStep`].
pub enum SetupStepView {
    Ask(SetupView, CommandLineView),
    Ready(GithubStateView),
    Failed(BrunErrorView),
}

impl View for SetupStep {
    type V = SetupStepView;

    open spec fn view(&self) -> SetupStepView {
        match *self {
            SetupStep::Ask(progress, line) => SetupStepView::Ask(progress@, line@),
            SetupStep::Ready(state) => SetupStepView::Ready(state@),
            SetupStep::Failed(error) => SetupStepView::Failed(error@),
        }
    }
}

/// What follows from one event during the start. The token comes first;
/// then the current directory has to be inside a work tree; then the
/// coordinates are read; last, the work tree has to be clean. An event that
/// is not the one awaited ends the start.
pub open spec fn setup_step(progress: SetupView, event: EventView) -> SetupStepView {
    match (progress, event) {
        (SetupView::Token, EventView::Started { gh_token, github_token }) => match chosen_token(
            gh_token,
            github_token,
        ) {
            Ok(token) => SetupStepView::Ask(SetupView::WorkTree { token }, work_tree_line()),
            Err(error) => SetupStepView::Failed(error),
        },
        (SetupView::WorkTree { token }, EventView::Ran(outcome)) => match work_tree_answer(
            outcome,
        ) {
            Ok(inside) => if inside {
                SetupStepView::Ask(
                    SetupView::Repo { token, progress: GitConfigView::Head },
                    head_line(),
                )
            } else {
                SetupStepView::Failed(BrunErrorView::GitNotinWorkTree)
            },
            Err(error) => SetupStepView::Failed(error),
        },
        (SetupView::Repo { token, progress }, EventView::Ran(outcome)) => match gitconfig_step(
            progress,
            outcome,
        ) {
            GitConfigStepView::Ask(progress, line) => SetupStepView::Ask(
                SetupView::Repo { token, progress },
                line,
            ),
            GitConfigStepView::Ready(repo) => SetupStepView::Ask(
                SetupView::Dirty { token, repo },
                dirty_line(),
            ),
            GitConfigStepView::Failed(error) => SetupStepView::Failed(error),
        },
        (SetupView::Dirty { token, repo }, EventView::Ran(outcome)) => match dirty_answer(outcome) {
            Ok(dirty) => if dirty {
                SetupStepView::Failed(BrunErrorView::GitDirty)
            } else {
                SetupStepView::Ready(GithubStateView::initial(repo, token))
            },
            Err(error) => SetupStepView::Failed(error),
        },
        _ => SetupStepView::Failed(BrunErrorView::InternalError("unexpected event"@)),
    }
}

/// Takes the start one event further.
pub fn setup(progress: Setup, event: Event) -> (step: SetupStep)
    ensures
        step@ == setup_step(progress@, event@),
{
    match (progress, event) {
        (Setup::Token, Event::Started { gh_token, github_token }) => match select_token(
            gh_token,
            github_token,
        ) {
            Ok(token) => SetupStep::Ask(Setup::WorkTree { token }, work_tree_query()),
            Err(error) => SetupStep::Failed(error),
        },
        (Setup::WorkTree { token }, Event::Ran(outcome)) => match git_is_work_tree(outcome) {
            Ok(inside) => {
                if inside {
                    SetupStep::Ask(Setup::Repo { token, progress: GitConfig::Head }, head_query())
                } else {
                    SetupStep::Failed(BrunError::GitNotinWorkTree)
                }
            },
            Err(error) => SetupStep::Failed(error),
        },
        (Setup::Repo { token, progress }, Event::Ran(outcome)) => match RemoteRepo::try_from_gitconfig(
            progress,
            outcome,
        ) {
            GitConfigStep::Ask(progress, line) => SetupStep::Ask(
                Setup::Repo { token, progress },
                line,
            ),
            GitConfigStep::Ready(repo) => SetupStep::Ask(
                Setup::Dirty { token, repo },
                dirty_query(),
            ),
            GitConfigStep::Failed(error) => SetupStep::Failed(error),
        },
        (Setup::Dirty { token, repo }, Event::Ran(outcome)) => match git_has_unstashed_changes(
            outcome,
        ) {
            Ok(dirty) => {
                if dirty {
                    SetupStep::Failed(BrunError::GitDirty)
                } else {
                    SetupStep::Ready(
                        GithubState::new(repo.username, repo.repo_name, repo.branch, token),
                    )
                }
            },
            Err(error) => SetupStep::Failed(error),
        },
        _ => SetupStep::Failed(BrunError::InternalError(String::from_str("unexpected event"))),
    }
}

} // verus!
