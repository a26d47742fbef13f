//! The polling loop as a state machine: what the daemon has observed, where
//! in an iteration it stands, and what it decides on each event.

use crate::error::{BrunError, BrunErrorView};
use crate::event::{
    reports_view, Action, ActionView, Event, EventView, Report, ReportView, Step, StepView,
};
use crate::git::{git_pull, pull_answer, pull_command, pull_line};
use crate::process::{shell_command, shell_line, CommandOutput, Outcome, OutcomeView};
use crate::remote::github::{Github, GithubView};
use crate::remote::{
    displaced_by, observed_after, refresh_outcome, tip_of, Remote, Reply, Request,
};
use crate::repo::{RemoteRepo, RemoteRepoView};
use crate::setup::{setup, setup_step, Setup, SetupStep, SetupStepView, SetupView};
use vstd::prelude::*;
use vstd::string::*;

verus! {

/// Where in an iteration the loop stands: which event it awaits.
#[derive(Debug, Clone, Copy, PartialEq, Eq, Structural)]
pub enum Phase {
    /// The reply to the request for the tip.
    Refreshing,
    /// The outcome of the pull.
    Pulling,
    /// The outcome of the user command.
    Running,
    /// The end of the polling period.
    Sleeping,
    /// Nothing: the loop has ended.
    Stopped,
}

/// The state of the controller.
#[derive(Debug, Clone, Copy, PartialEq, Eq, Structural)]
pub enum Mode {
    /// No refresh has succeeded yet.
    Init,
    /// A tip has been observed; the next refresh is awaited or under way.
    Armed,
    /// A new tip has just been observed; the pull or the user command runs.
    Changed,
    /// The loop has ended.
    Stopped,
}

/// What the controller knows of the remote, and where in the loop it stands.
#[derive(Debug)]
pub struct GithubState {
    remote: Github,
    phase: Phase,
}

/// The mathematical value of a [`GithubState`].
pub struct GithubStateView {
    pub remote: GithubView,
    pub phase: Phase,
}

impl View for GithubState {
    type V = GithubStateView;

    closed spec fn view(&self) -> GithubStateView {
        GithubStateView { remote: self.remote@, phase: self.phase }
    }
}

impl GithubStateView {
    /// The state that the loop begins with: nothing observed, the first
    /// refresh awaited.
    pub open spec fn initial(repo: RemoteRepoView, token: Seq<char>) -> GithubStateView {
        GithubStateView {
            remote: GithubView {
                username: repo.username,
                repo: repo.repo_name,
                branch: repo.branch,
                token,
                last_commit: None,
            },
            phase: Phase::Refreshing,
        }
    }

    /// The state of the controller.
    pub open spec fn mode(self) -> Mode {
        match self.phase {
            Phase::Refreshing => if self.remote.last_commit is None {
                Mode::Init
            } else {
                Mode::Armed
            },
            Phase::Sleeping => Mode::Armed,
            Phase::Pulling => Mode::Changed,
            Phase::Running => Mode::Changed,
            Phase::Stopped => Mode::Stopped,
        }
    }

    /// The same observations, in another phase.
    pub open spec fn at(self, phase: Phase) -> GithubStateView {
        GithubStateView { phase, ..self }
    }

    /// The same phase, with `tip` as the tip observed last.
    pub open spec fn observing(self, tip: Seq<char>) -> GithubStateView {
        GithubStateView { remote: GithubView { last_commit: Some(tip), ..self.remote }, ..self }
    }
}

impl GithubState {
    /// The state that the loop begins with.
    pub fn new(username: String, repo: String, branch: String, token: String) -> (state: Self)
        ensures
            state@ == GithubStateView::initial(
                RemoteRepoView { username: username@, repo_name: repo@, branch: branch@ },
                token@,
            ),
    {
        GithubState { remote: Github::new(username, repo, branch, token), phase: Phase::Refreshing }
    }

    /// The tip observed last, if any was.
    pub fn last_commit(&self) -> (tip: Option<&str>)
        ensures
            tip.deep_view() == self@.remote.last_commit,
    {
        self.remote.last_commit()
    }

    /// Where in an iteration the loop stands.
    pub fn phase(&self) -> (phase: Phase)
        ensures
            phase == self@.phase,
    {
        self.phase
    }

    /// The state of the controller.
    pub fn mode(&self) -> (mode: Mode)
        ensures
            mode == self@.mode(),
    {
        match self.phase {
            Phase::Refreshing => {
                if self.remote.last_commit().is_none() {
                    Mode::Init
                } else {
                    Mode::Armed
                }
            },
            Phase::Sleeping => Mode::Armed,
            Phase::Pulling => Mode::Changed,
            Phase::Running => Mode::Changed,
            Phase::Stopped => Mode::Stopped,
        }
    }

    /// Where the watched branch lives.
    pub fn coordinates(&self) -> (repo: RemoteRepo)
        ensures
            repo@ == self@.remote.coordinates(),
    {
        self.remote.coordinates()
    }

    /// The request that asks for the tip of the branch.
    pub fn request(&self) -> (request: Request)
        ensures
            request@ == self@.remote.tip_request(),
    {
        self.remote.request()
    }

    /// Records the tip that `reply` names and returns the one it displaces.
    /// Nothing else changes, and nothing at all where the reply names no
    /// tip. After a success a tip is observed, and a tip, once observed, is
    /// never cleared.
    pub fn refresh(&mut self, reply: Reply) -> (r: Result<Option<String>, BrunError>)
        ensures
            refresh_outcome(r) == displaced_by(old(self)@.remote.last_commit, reply@),
            final(self)@ == (GithubStateView {
                remote: GithubView {
                    last_commit: observed_after(old(self)@.remote.last_commit, reply@),
                    ..old(self)@.remote
                },
                ..old(self)@
            }),
            r is Ok ==> final(self)@.remote.last_commit is Some,
            old(self)@.remote.last_commit is Some ==> final(self)@.remote.last_commit is Some,
    {
        self.remote.refresh(reply)
    }
}

/// What the daemon is busy with.
#[derive(Debug)]
pub enum Stage {
    /// The start.
    Setup(Setup),
    /// The polling loop.
    Watching(GithubState),
    /// Nothing: the start failed.
    Halted,
}

/// The mathematical value of a [`Stage`].
pub enum StageView {
    Setup(SetupView),
    Watching(GithubStateView),
    Halted,
}

impl View for Stage {
    type V = StageView;

    open spec fn view(&self) -> StageView {
        match *self {
            Stage::Setup(progress) => StageView::Setup(progress@),
            Stage::Watching(state) => StageView::Watching(state@),
            Stage::Halted => StageView::Halted,
        }
    }
}

/// The daemon: its configuration and what it is busy with.
#[derive(Debug)]
pub struct Daemon {
    user_cmd: String,
    stop_on_failure: bool,
    stage: Stage,
}

/// The mathematical value of a [`Daemon`].
pub struct DaemonView {
    /// The user command, as handed to the shell.
    pub user_cmd: Seq<char>,
    /// Whether a failure of the user command ends the loop.
    pub stop_on_failure: bool,
    pub stage: StageView,
}

impl View for Daemon {
    type V = DaemonView;

    closed spec fn view(&self) -> DaemonView {
        DaemonView {
            user_cmd: self.user_cmd@,
            stop_on_failure: self.stop_on_failure,
            stage: self.stage@,
        }
    }
}

/// The step that says nothing and performs `action`.
pub open spec fn silent(action: ActionView) -> StepView {
    StepView { reports: Seq::empty(), action }
}

/// The step that ends the daemon with an internal error.
pub open spec fn refuse(detail: Seq<char>) -> StepView {
    silent(ActionView::Stop(BrunErrorView::InternalError(detail)))
}

/// What one event does to the polling loop.
///
/// A reply with a tip is recorded and reported. Where the tip differs from
/// the one observed before, or none was observed before, the change is
/// reported and the pull follows; else the loop sleeps. After a pull that
/// went through the user command follows, and after the user command the
/// loop sleeps, unless the command failed and a failure is to end the loop.
/// After the sleep comes the next request. Every error ends the loop.
pub open spec fn watch_step(
    state: GithubStateView,
    user_cmd: Seq<char>,
    stop_on_failure: bool,
    event: EventView,
) -> (GithubStateView, StepView) {
    match (state.phase, event) {
        (Phase::Refreshing, EventView::Replied(reply)) => match tip_of(reply) {
            Ok(tip) => if state.remote.last_commit == Some(tip) {
                (
                    state.observing(tip).at(Phase::Sleeping),
                    StepView { reports: seq![ReportView::LastCommit(tip)], action: ActionView::Sleep },
                )
            } else {
                (
                    state.observing(tip).at(Phase::Pulling),
                    StepView {
                        reports: seq![
                            ReportView::LastCommit(tip),
                            ReportView::Changed {
                                previous: state.remote.last_commit,
                                current: tip,
                            },
                        ],
                        action: ActionView::Run(pull_line()),
                    },
                )
            },
            Err(error) => (state.at(Phase::Stopped), silent(ActionView::Stop(error))),
        },
        (Phase::Pulling, EventView::Ran(outcome)) => match pull_answer(outcome) {
            Ok(_) => (
                state.at(Phase::Running),
                StepView {
                    reports: seq![ReportView::Pulled],
                    action: ActionView::Run(shell_line(user_cmd)),
                },
            ),
            Err(error) => (state.at(Phase::Stopped), silent(ActionView::Stop(error))),
        },
        (Phase::Running, EventView::Ran(outcome)) => match outcome {
            OutcomeView::LaunchFailed => (
                state.at(Phase::Stopped),
                silent(ActionView::Stop(BrunErrorView::CommandFailure(user_cmd))),
            ),
            OutcomeView::Exited(output) => if !output.success() && stop_on_failure {
                (
                    state.at(Phase::Stopped),
                    StepView {
                        reports: seq![ReportView::UserOutput(output.stdout)],
                        action: ActionView::Stop(
                            BrunErrorView::UserCommand(output.code_or_default(), output.stderr),
                        ),
                    },
                )
            } else {
                (
                    state.at(Phase::Sleeping),
                    StepView {
                        reports: seq![ReportView::UserOutput(output.stdout)],
                        action: ActionView::Sleep,
                    },
                )
            },
        },
        (Phase::Sleeping, EventView::Slept) => (
            state.at(Phase::Refreshing),
            silent(ActionView::Fetch(state.remote.tip_request())),
        ),
        (Phase::Stopped, _) => (state, refuse("the daemon has stopped"@)),
        _ => (state.at(Phase::Stopped), refuse("unexpected event"@)),
    }
}

impl DaemonView {
    /// The daemon before its first event.
    pub open spec fn created(user_cmd: Seq<char>, stop_on_failure: bool) -> DaemonView {
        DaemonView { user_cmd, stop_on_failure, stage: StageView::Setup(SetupView::Token) }
    }

    /// The same configuration, busy with `stage`.
    pub open spec fn busy_with(self, stage: StageView) -> DaemonView {
        DaemonView { stage, ..self }
    }

    /// The state of the controller. The start counts as [`Mode::Init`], a
    /// failed start as [`Mode::Stopped`].
    pub open spec fn mode(self) -> Mode {
        match self.stage {
            StageView::Setup(_) => Mode::Init,
            StageView::Watching(state) => state.mode(),
            StageView::Halted => Mode::Stopped,
        }
    }

    /// The tip observed last, if any was.
    pub open spec fn last_commit(self) -> Option<Seq<char>> {
        match self.stage {
            StageView::Watching(state) => state.remote.last_commit,
            _ => None,
        }
    }

    /// What one event does to the daemon. When the start is over, the banner
    /// is reported and the first request follows at once.
    pub open spec fn next(self, event: EventView) -> (DaemonView, StepView) {
        match self.stage {
            StageView::Setup(progress) => match setup_step(progress, event) {
                SetupStepView::Ask(progress, line) => (
                    self.busy_with(StageView::Setup(progress)),
                    silent(ActionView::Run(line)),
                ),
                SetupStepView::Ready(state) => (
                    self.busy_with(StageView::Watching(state)),
                    StepView {
                        reports: seq![ReportView::Listening(state.remote.coordinates())],
                        action: ActionView::Fetch(state.remote.tip_request()),
                    },
                ),
                SetupStepView::Failed(error) => (
                    self.busy_with(StageView::Halted),
                    silent(ActionView::Stop(error)),
                ),
            },
            StageView::Watching(state) => {
                let (state, step) = watch_step(state, self.user_cmd, self.stop_on_failure, event);
                (self.busy_with(StageView::Watching(state)), step)
            },
            StageView::Halted => (self, refuse("the daemon has stopped"@)),
        }
    }
}

/// The step with these reports and this action.
fn step_of(reports: Vec<Report>, action: Action) -> (step: Step)
    ensures
        step@ == (StepView { reports: reports_view(reports), action: action@ }),
{
    Step { reports, action }
}

/// The step that says nothing and ends the daemon with an internal error.
fn refusal(detail: &str) -> (step: Step)
    ensures
        step@ == refuse(detail@),
{
    let reports: Vec<Report> = Vec::new();
    assert(reports_view(reports) =~= Seq::empty());
    step_of(reports, Action::Stop(BrunError::InternalError(String::from_str(detail))))
}

/// The step that says nothing and performs `action`.
fn quiet(action: Action) -> (step: Step)
    ensures
        step@ == silent(action@),
{
    let reports: Vec<Report> = Vec::new();
    assert(reports_view(reports) =~= Seq::empty());
    step_of(reports, action)
}

/// The step that makes one report and performs `action`.
fn saying(report: Report, action: Action) -> (step: Step)
    ensures
        step@ == (StepView { reports: seq![report@], action: action@ }),
{
    let mut reports: Vec<Report> = Vec::new();
    reports.push(report);
    assert(reports_view(reports) =~= seq![report@]);
    step_of(reports, action)
}

impl Daemon {
    /// The daemon before its first event, which has to be [`Event::Started`].
    pub fn new(user_cmd: String, stop_on_failure: bool) -> (daemon: Daemon)
        ensures
            daemon@ == DaemonView::created(user_cmd@, stop_on_failure),
    {
        Daemon { user_cmd, stop_on_failure, stage: Stage::Setup(Setup::Token) }
    }

    /// The state of the controller.
    pub fn mode(&self) -> (mode: Mode)
        ensures
            mode == self@.mode(),
    {
        match &self.stage {
            Stage::Setup(_) => Mode::Init,
            Stage::Watching(state) => state.mode(),
            Stage::Halted => Mode::Stopped,
        }
    }

    /// The tip observed last, if any was.
    pub fn last_commit(&self) -> (tip: Option<&str>)
        ensures
            tip.deep_view() == self@.last_commit(),
    {
        match &self.stage {
            Stage::Watching(state) => state.last_commit(),
            _ => None,
        }
    }
}

/// Takes the polling loop one event further.
pub fn watch(state: GithubState, user_cmd: &str, stop_on_failure: bool, event: Event) -> (r: (
    GithubState,
    Step,
))
    ensures
        (r.0@, r.1@) == watch_step(state@, user_cmd@, stop_on_failure, event@),
{
    let mut state = state;
    match (state.phase, event) {
        (Phase::Refreshing, Event::Replied(reply)) => match state.refresh(reply) {
            Ok(previous) => {
                let current = match state.last_commit() {
                    Some(sha) => String::from_str(sha),
                    None => {
                        assert(false);
                        String::new()
                    },
                };
                let same = match &previous {
                    Some(sha) => *sha == current,
                    None => false,
                };
                if same {
                    state.phase = Phase::Sleeping;
                    (state, saying(Report::LastCommit(current), Action::Sleep))
                } else {
                    state.phase = Phase::Pulling;
                    let mut reports: Vec<Report> = Vec::new();
                    reports.push(Report::LastCommit(current.clone()));
                    reports.push(Report::Changed { previous, current });
                    assert(reports_view(reports) =~= seq![
                        ReportView::LastCommit(current@),
                        ReportView::Changed { previous: previous.deep_view(), current: current@ },
                    ]);
                    (state, step_of(reports, Action::Run(pull_command())))
                }
            },
            Err(error) => {
                state.phase = Phase::Stopped;
                (state, quiet(Action::Stop(error)))
            },
        },
        (Phase::Pulling, Event::Ran(outcome)) => match git_pull(outcome) {
            Ok(_) => {
                state.phase = Phase::Running;
                (state, saying(Report::Pulled, Action::Run(shell_command(user_cmd))))
            },
            Err(error) => {
                state.phase = Phase::Stopped;
                (state, quiet(Action::Stop(error)))
            },
        },
        (Phase::Running, Event::Ran(outcome)) => match outcome {
            Outcome::LaunchFailed => {
                state.phase = Phase::Stopped;
                (
                    state,
                    quiet(Action::Stop(BrunError::CommandFailure(String::from_str(user_cmd)))),
                )
            },
            Outcome::Exited(output) => {
                let failed = !output.success();
                let code = output.code_or_default();
                let CommandOutput { code: _, stdout, stderr } = output;
                if failed && stop_on_failure {
                    state.phase = Phase::Stopped;
                    (
                        state,
                        saying(
                            Report::UserOutput(stdout),
                            Action::Stop(BrunError::UserCommand(code, stderr)),
                        ),
                    )
                } else {
                    state.phase = Phase::Sleeping;
                    (state, saying(Report::UserOutput(stdout), Action::Sleep))
                }
            },
        },
        (Phase::Sleeping, Event::Slept) => {
            state.phase = Phase::Refreshing;
            let request = state.request();
            (state, quiet(Action::Fetch(request)))
        },
        (Phase::Stopped, _) => (state, refusal("the daemon has stopped")),
        _ => {
            state.phase = Phase::Stopped;
            (state, refusal("unexpected event"))
        },
    }
}

/// Takes the daemon one event further: the start first, then the polling
/// loop, for as long as the caller reports events.
pub fn listen_and_run(daemon: Daemon, event: Event) -> (r: (Daemon, Step))
    ensures
        (r.0@, r.1@) == daemon@.next(event@),
{
    let Daemon { user_cmd, stop_on_failure, stage } = daemon;
    match stage {
        Stage::Setup(progress) => match setup(progress, event) {
            SetupStep::Ask(progress, line) => (
                Daemon { user_cmd, stop_on_failure, stage: Stage::Setup(progress) },
                quiet(Action::Run(line)),
            ),
            SetupStep::Ready(state) => {
                let banner = Report::Listening(state.coordinates());
                let request = state.request();
                (
                    Daemon { user_cmd, stop_on_failure, stage: Stage::Watching(state) },
                    saying(banner, Action::Fetch(request)),
                )
            },
            SetupStep::Failed(error) => (
                Daemon { user_cmd, stop_on_failure, stage: Stage::Halted },
                quiet(Action::Stop(error)),
            ),
        },
        Stage::Watching(state) => {
            let (state, step) = watch(state, user_cmd.as_str(), stop_on_failure, event);
            (Daemon { user_cmd, stop_on_failure, stage: Stage::Watching(state) }, step)
        },
        Stage::Halted => (
            Daemon { user_cmd, stop_on_failure, stage: Stage::Halted },
            refusal("the daemon has stopped"),
        ),
    }
}

} // verus!
