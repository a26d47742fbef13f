//! What passes between the daemon and the program that runs it.
//!
//! The program reports an [`Event`]; the daemon answers with a [`Step`]: the
//! reports to write to standard output and the one [`Action`] to perform
//! next. The outcome of that action is the next event.

use crate::error::{BrunError, BrunErrorView};
use crate::process::{CommandLine, CommandLineView, Outcome, OutcomeView};
use crate::remote::{Reply, ReplyView, Request, RequestView};
use crate::repo::{RemoteRepo, RemoteRepoView};
use vstd::prelude::*;
use vstd::string::*;

verus! {

/// What happened outside the daemon.
#[derive(Debug, PartialEq, Eq)]
pub enum Event {
    /// The program started: the values of `GH_TOKEN` and `GITHUB_TOKEN`.
    Started { gh_token: Option<String>, github_token: Option<String> },
    /// The command that was asked for has been run.
    Ran(Outcome),
    /// The request that was asked for has been sent.
    Replied(Reply),
    /// The polling period has passed.
    Slept,
}

/// The mathematical value of an [`Event`].
pub enum EventView {
    Started { gh_token: Option<Seq<char>>, github_token: Option<Seq<char>> },
    Ran(OutcomeView),
    Replied(ReplyView),
    Slept,
}

impl View for Event {
    type V = EventView;

    open spec fn view(&self) -> EventView {
        match *self {
            Event::Started { gh_token, github_token } => EventView::Started {
                gh_token: gh_token.deep_view(),
                github_token: github_token.deep_view(),
            },
            Event::Ran(outcome) => EventView::Ran(outcome@),
            Event::Replied(reply) => EventView::Replied(reply@),
            Event::Slept => EventView::Slept,
        }
    }
}

/// What the program is to do next.
#[derive(Debug, Clone, PartialEq, Eq)]
pub enum Action {
    /// Run the command and report [`Event::Ran`].
    Run(CommandLine),
    /// Send the request and report [`Event::Replied`].
    Fetch(Request),
    /// Sleep for the polling period and report [`Event::Slept`].
    Sleep,
    /// Report the error and exit.
    Stop(BrunError),
}

/// The mathematical value of an [`Action`].
pub enum ActionView {
    Run(CommandLineView),
    Fetch(RequestView),
    Sleep,
    Stop(BrunErrorView),
}

impl View for Action {
    type V = ActionView;

    open spec fn view(&self) -> ActionView {
        match *self {
            Action::Run(line) => ActionView::Run(line@),
            Action::Fetch(request) => ActionView::Fetch(request@),
            Action::Sleep => ActionView::Sleep,
            Action::Stop(error) => ActionView::Stop(error@),
        }
    }
}

/// Something the daemon says on standard output.
#[derive(Debug, Clone, PartialEq, Eq)]
pub enum Report {
    /// The banner: which branch is listened to.
    Listening(RemoteRepo),
    /// The tip that a refresh observed.
    LastCommit(String),
    /// The tip moved.
    Changed { previous: Option<String>, current: String },
    /// The pull went through.
    Pulled,
    /// What the user command wrote to its standard output.
    UserOutput(String),
}

/// The mathematical value of a [`Report`].
pub enum ReportView {
    Listening(RemoteRepoView),
    LastCommit(Seq<char>),
    Changed { previous: Option<Seq<char>>, current: Seq<char> },
    Pulled,
    UserOutput(Seq<char>),
}

impl View for Report {
    type V = ReportView;

    open spec fn view(&self) -> ReportView {
        match *self {
            Report::Listening(repo) => ReportView::Listening(repo@),
            Report::LastCommit(sha) => ReportView::LastCommit(sha@),
            Report::Changed { previous, current } => ReportView::Changed {
                previous: previous.deep_view(),
                current: current@,
            },
            Report::Pulled => ReportView::Pulled,
            Report::UserOutput(text) => ReportView::UserOutput(text@),
        }
    }
}

/// How a tip that may be missing is written.
pub open spec fn tip_or_null(tip: Option<Seq<char>>) -> Seq<char> {
    match tip {
        Some(sha) => sha,
        None => "null"@,
    }
}

impl ReportView {
    /// The characters that the report puts on standard output: a line for the
    /// daemon's own reports, and the user command's output as it stands.
    pub open spec fn text(self) -> Seq<char> {
        match self {
            ReportView::Listening(repo) => "Listening for changes from "@ + repo.username + "/"@
                + repo.repo_name + "/"@ + repo.branch + "\n"@,
            ReportView::LastCommit(sha) => "The last commit is: "@ + sha + "\n"@,
            ReportView::Changed { previous, current } => "Remote branch changed: "@ + tip_or_null(
                previous,
            ) + " -> "@ + current + "\n"@,
            ReportView::Pulled => "Pulled the latest changes\n"@,
            ReportView::UserOutput(text) => text,
        }
    }
}

impl Report {
    /// The characters to write to standard output for this report.
    pub fn text(&self) -> (text: String)
        ensures
            text@ == self@.text(),
    {
        match self {
            Report::Listening(repo) => {
                let mut text = String::from_str("Listening for changes from ");
                text.append(repo.username.as_str());
                text.append("/");
                text.append(repo.repo_name.as_str());
                text.append("/");
                text.append(repo.branch.as_str());
                text.append("\n");
                text
            },
            Report::LastCommit(sha) => {
                let mut text = String::from_str("The last commit is: ");
                text.append(sha.as_str());
                text.append("\n");
                text
            },
            Report::Changed { previous, current } => {
                let mut text = String::from_str("Remote branch changed: ");
                match previous {
                    Some(sha) => text.append(sha.as_str()),
                    None => text.append("null"),
                }
                text.append(" -> ");
                text.append(current.as_str());
                text.append("\n");
                text
            },
            Report::Pulled => String::from_str("Pulled the latest changes\n"),
            Report::UserOutput(output) => output.clone(),
        }
    }
}

/// The mathematical values of the reports in a list, in order.
pub open spec fn reports_view(reports: Vec<Report>) -> Seq<ReportView> {
    Seq::new(reports@.len(), |i: int| reports@[i]@)
}

/// The daemon's answer to one event.
#[derive(Debug, Clone, PartialEq, Eq)]
pub struct Step {
    /// What to write to standard output, in order, before acting.
    pub reports: Vec<Report>,
    /// What to do next.
    pub action: Action,
}

/// The mathematical value of a [`Step`].
pub struct StepView {
    pub reports: Seq<ReportView>,
    pub action: ActionView,
}

impl View for Step {
    type V = StepView;

    open spec fn view(&self) -> StepView {
        StepView { reports: reports_view(self.reports), action: self.action@ }
    }
}

} // verus!
