//! What holds of every run of the daemon, proved over its model.

use crate::daemon::{watch_step, DaemonView, GithubStateView, Mode, Phase, StageView};
use crate::error::BrunErrorView;
use crate::event::{ActionView, EventView, ReportView, StepView};
use crate::git::{coordinates, pull_answer, pull_line, remote_of};
use crate::process::shell_line;
use crate::remote::{tip_of, ReplyView};
use crate::repo::GitConfigView;
use crate::setup::SetupView;
use vstd::prelude::*;

verus! {

/// The daemon after it has taken `events`, in order.
pub open spec fn run(daemon: DaemonView, events: Seq<EventView>) -> DaemonView
    decreases events.len(),
{
    if events.len() == 0 {
        daemon
    } else {
        run(daemon, events.drop_last()).next(events.last()).0
    }
}

/// The steps that the daemon answered `events` with, in order.
pub open spec fn answers(daemon: DaemonView, events: Seq<EventView>) -> Seq<StepView>
    decreases events.len(),
{
    if events.len() == 0 {
        Seq::empty()
    } else {
        answers(daemon, events.drop_last()).push(
            run(daemon, events.drop_last()).next(events.last()).1,
        )
    }
}

/// How many of the reports are banners.
pub open spec fn banners_in(reports: Seq<ReportView>) -> nat
    decreases reports.len(),
{
    if reports.len() == 0 {
        0
    } else {
        banners_in(reports.drop_last()) + if reports.last() is Listening {
            1nat
        } else {
            0nat
        }
    }
}

/// How many banners the steps report in all.
pub open spec fn banners(steps: Seq<StepView>) -> nat
    decreases steps.len(),
{
    if steps.len() == 0 {
        0
    } else {
        banners(steps.drop_last()) + banners_in(steps.last().reports)
    }
}

/// Whether one of the steps ends the daemon.
pub open spec fn stops(steps: Seq<StepView>) -> bool {
    exists|i: int| 0 <= i < steps.len() && (#[trigger] steps[i]).action is Stop
}

/// In the phases that follow an observation, a tip has been observed.
pub open spec fn consistent(daemon: DaemonView) -> bool {
    match daemon.stage {
        StageView::Watching(state) => state.phase == Phase::Refreshing || state.phase
            == Phase::Stopped || state.remote.last_commit is Some,
        _ => true,
    }
}

/// How many events a daemon that never failed has taken on its way to the
/// first sleep: one for the token, five answers of `git`, the first reply,
/// the pull and the user command. Ten stands for a daemon that is past its
/// first sleep or has stopped.
pub open spec fn progress(daemon: DaemonView) -> int {
    match daemon.stage {
        StageView::Setup(SetupView::Token) => 0,
        StageView::Setup(SetupView::WorkTree { .. }) => 1,
        StageView::Setup(SetupView::Repo { progress: GitConfigView::Head, .. }) => 2,
        StageView::Setup(SetupView::Repo { progress: GitConfigView::Upstream { .. }, .. }) => 3,
        StageView::Setup(SetupView::Repo { progress: GitConfigView::RemoteUrl { .. }, .. }) => 4,
        StageView::Setup(SetupView::Dirty { .. }) => 5,
        StageView::Watching(state) => match state.phase {
            Phase::Refreshing => if state.remote.last_commit is None {
                6
            } else {
                10
            },
            Phase::Pulling => 7,
            Phase::Running => 8,
            Phase::Sleeping => 9,
            Phase::Stopped => 10,
        },
        StageView::Halted => 10,
    }
}

/// One list of reports with a single element holds one banner or none.
proof fn lemma_banners_in_one(report: ReportView)
    ensures
        banners_in(seq![report]) == if report is Listening {
            1nat
        } else {
            0nat
        },
{
    let one = seq![report];
    assert(one.drop_last() =~= Seq::<ReportView>::empty());
    assert(banners_in(one.drop_last()) == 0);
}

/// A list of two reports holds as many banners as its elements are banners.
proof fn lemma_banners_in_two(first: ReportView, second: ReportView)
    ensures
        banners_in(seq![first, second]) == (if first is Listening {
            1nat
        } else {
            0nat
        }) + (if second is Listening {
            1nat
        } else {
            0nat
        }),
{
    let two = seq![first, second];
    assert(two.drop_last() =~= seq![first]);
    lemma_banners_in_one(first);
}

/// One event brings a banner exactly when it ends the start with success.
/// The polling loop, once entered, is never left, and neither is a failed
/// start.
pub proof fn lemma_step_banner(daemon: DaemonView, event: EventView)
    ensures
        banners_in(daemon.next(event).1.reports) == if daemon.stage is Setup && daemon.next(
            event,
        ).0.stage is Watching {
            1nat
        } else {
            0nat
        },
        daemon.stage is Watching ==> daemon.next(event).0.stage is Watching,
        daemon.stage is Halted ==> daemon.next(event).0.stage is Halted,
{
    let reports = daemon.next(event).1.reports;
    if reports.len() == 1 {
        assert(reports =~= seq![reports[0]]);
        lemma_banners_in_one(reports[0]);
    } else if reports.len() == 2 {
        assert(reports =~= seq![reports[0], reports[1]]);
        lemma_banners_in_two(reports[0], reports[1]);
    }
}

/// A run reports one banner where it goes from the start into the polling
/// loop, and none otherwise.
pub proof fn lemma_run_banners(daemon: DaemonView, events: Seq<EventView>)
    ensures
        banners(answers(daemon, events)) == if daemon.stage is Setup && run(
            daemon,
            events,
        ).stage is Watching {
            1nat
        } else {
            0nat
        },
        daemon.stage is Watching ==> run(daemon, events).stage is Watching,
        daemon.stage is Halted ==> run(daemon, events).stage is Halted,
    decreases events.len(),
{
    if events.len() > 0 {
        let before = run(daemon, events.drop_last());
        lemma_run_banners(daemon, events.drop_last());
        lemma_step_banner(before, events.last());
        assert(answers(daemon, events).drop_last() =~= answers(daemon, events.drop_last()));
    }
}

/// Every run of the daemon from its creation reports the banner once where
/// it reaches the polling loop, and never where it does not.
pub proof fn one_banner_per_run(
    user_cmd: Seq<char>,
    stop_on_failure: bool,
    events: Seq<EventView>,
)
    ensures
        ({
            let daemon = DaemonView::created(user_cmd, stop_on_failure);
            banners(answers(daemon, events)) == if run(daemon, events).stage is Watching {
                1nat
            } else {
                0nat
            }
        }),
{
    lemma_run_banners(DaemonView::created(user_cmd, stop_on_failure), events);
}

/// An event that does not end the daemon takes it one place further on its
/// way to the first sleep.
pub proof fn lemma_step_progress(daemon: DaemonView, event: EventView)
    requires
        progress(daemon) < 9,
        !(daemon.next(event).1.action is Stop),
    ensures
        progress(daemon.next(event).0) == progress(daemon) + 1,
{
}

/// As long as no step ends the daemon, each event takes it one place further
/// on its way to the first sleep.
pub proof fn lemma_run_progress(daemon: DaemonView, events: Seq<EventView>)
    requires
        progress(daemon) + events.len() <= 9,
        !stops(answers(daemon, events)),
    ensures
        progress(run(daemon, events)) == progress(daemon) + events.len(),
    decreases events.len(),
{
    if events.len() > 0 {
        let shorter = events.drop_last();
        let steps = answers(daemon, events);
        assert(steps.drop_last() =~= answers(daemon, shorter));
        assert forall|i: int| 0 <= i < answers(daemon, shorter).len() implies !((
        #[trigger] answers(daemon, shorter)[i]).action is Stop) by {
            assert(steps[i] == answers(daemon, shorter)[i]);
        }
        lemma_run_progress(daemon, shorter);
        let last = steps[steps.len() - 1];
        assert(!(last.action is Stop));
        lemma_step_progress(run(daemon, shorter), events.last());
    }
}

/// A run of nine events from the daemon's creation in which no step ends the
/// daemon leaves it armed, with the banner reported exactly once: the token
/// was there, the checkout was a clean work tree with an upstream, the
/// remote named a tip, and the first pull and user command went through.
pub proof fn successful_start_reaches_armed(
    user_cmd: Seq<char>,
    stop_on_failure: bool,
    events: Seq<EventView>,
)
    requires
        events.len() == 9,
        !stops(answers(DaemonView::created(user_cmd, stop_on_failure), events)),
    ensures
        run(DaemonView::created(user_cmd, stop_on_failure), events).mode() == Mode::Armed,
        banners(answers(DaemonView::created(user_cmd, stop_on_failure), events)) == 1,
{
    let daemon = DaemonView::created(user_cmd, stop_on_failure);
    lemma_run_progress(daemon, events);
    lemma_run_banners(daemon, events);
}

/// One event never clears the tip observed last.
pub proof fn lemma_step_keeps_tip(daemon: DaemonView, event: EventView)
    requires
        daemon.last_commit() is Some,
    ensures
        daemon.next(event).0.last_commit() is Some,
{
}

/// The tip observed last, once set, is never cleared: whatever events
/// follow, a tip stays observed.
pub proof fn last_commit_never_cleared(daemon: DaemonView, events: Seq<EventView>)
    requires
        daemon.last_commit() is Some,
    ensures
        run(daemon, events).last_commit() is Some,
    decreases events.len(),
{
    if events.len() > 0 {
        last_commit_never_cleared(daemon, events.drop_last());
        lemma_step_keeps_tip(run(daemon, events.drop_last()), events.last());
    }
}

/// One event keeps the daemon consistent, and a step that sleeps leaves a
/// tip observed.
pub proof fn lemma_step_consistent(daemon: DaemonView, event: EventView)
    requires
        consistent(daemon),
    ensures
        consistent(daemon.next(event).0),
        daemon.next(event).1.action is Sleep ==> daemon.next(event).0.last_commit() is Some,
{
}

/// Every daemon that a run from the creation reaches is consistent.
pub proof fn lemma_run_consistent(daemon: DaemonView, events: Seq<EventView>)
    requires
        consistent(daemon),
    ensures
        consistent(run(daemon, events)),
    decreases events.len(),
{
    if events.len() > 0 {
        lemma_run_consistent(daemon, events.drop_last());
        lemma_step_consistent(run(daemon, events.drop_last()), events.last());
    }
}

/// The loop never sleeps before the first refresh: in every run from the
/// daemon's creation, a step that says to sleep comes when a tip has been
/// observed, and so after a reply to a request for it.
pub proof fn no_sleep_before_first_refresh(
    user_cmd: Seq<char>,
    stop_on_failure: bool,
    events: Seq<EventView>,
)
    requires
        events.len() > 0,
        answers(DaemonView::created(user_cmd, stop_on_failure), events).last().action is Sleep,
    ensures
        run(DaemonView::created(user_cmd, stop_on_failure), events).last_commit() is Some,
{
    let daemon = DaemonView::created(user_cmd, stop_on_failure);
    lemma_run_consistent(daemon, events.drop_last());
    lemma_step_consistent(run(daemon, events.drop_last()), events.last());
}

/// A reply that names the tip observed last changes nothing: the tip is
/// reported and the loop sleeps, with no pull and no user command.
pub proof fn same_tip_brings_no_pull(
    state: GithubStateView,
    user_cmd: Seq<char>,
    stop_on_failure: bool,
    reply: ReplyView,
    tip: Seq<char>,
)
    requires
        state.phase == Phase::Refreshing,
        tip_of(reply) == Ok::<Seq<char>, BrunErrorView>(tip),
        state.remote.last_commit == Some(tip),
    ensures
        ({
            let (armed, step) = watch_step(
                state,
                user_cmd,
                stop_on_failure,
                EventView::Replied(reply),
            );
            &&& armed == state.at(Phase::Sleeping)
            &&& armed.mode() == Mode::Armed
            &&& step.action is Sleep
            &&& step.reports == seq![ReportView::LastCommit(tip)]
        }),
{
    assert(state.observing(tip) == state);
}

/// For every observed change, exactly one pull is attempted and at most
/// one user command, in that order. A reply that names another tip than the
/// one observed last, or the first tip ever, brings the pull and nothing
/// else. Whatever its outcome, what follows is the user command or the end,
/// never a second pull. Whatever the outcome of the user command, what
/// follows is the sleep or the end, never another command.
pub proof fn change_brings_one_pull_then_one_command(
    state: GithubStateView,
    user_cmd: Seq<char>,
    stop_on_failure: bool,
    reply: ReplyView,
    tip: Seq<char>,
    after_pull: EventView,
    after_command: EventView,
)
    requires
        state.phase == Phase::Refreshing,
        tip_of(reply) == Ok::<Seq<char>, BrunErrorView>(tip),
        state.remote.last_commit != Some(tip),
    ensures
        ({
            let (pulling, first) = watch_step(
                state,
                user_cmd,
                stop_on_failure,
                EventView::Replied(reply),
            );
            let (running, second) = watch_step(pulling, user_cmd, stop_on_failure, after_pull);
            let (resting, third) = watch_step(running, user_cmd, stop_on_failure, after_command);
            &&& pulling == state.observing(tip).at(Phase::Pulling)
            &&& pulling.mode() == Mode::Changed
            &&& first.action == ActionView::Run(pull_line())
            &&& second.action != ActionView::Run(pull_line())
            &&& second.action is Stop || second.action == ActionView::Run(shell_line(user_cmd))
            &&& second.action is Stop ==> running.mode() == Mode::Stopped
            &&& second.action is Run ==> running.mode() == Mode::Changed
            &&& second.action is Run ==> third.action is Sleep || third.action is Stop
            &&& second.action is Run && third.action is Sleep ==> resting.mode() == Mode::Armed
            &&& second.action is Run && third.action is Stop ==> resting.mode() == Mode::Stopped
        }),
{
    reveal_strlit("sh");
    reveal_strlit("git");
    assert(pull_line().program != shell_line(user_cmd).program) by {
        assert("git"@.len() != "sh"@.len());
    }
}

/// The pull is asked for on no other occasion than a reply that names
/// another tip than the one observed last, or the first tip ever.
pub proof fn pull_only_after_change(daemon: DaemonView, event: EventView)
    requires
        daemon.next(event).1.action == ActionView::Run(pull_line()),
    ensures
        daemon.stage matches StageView::Watching(state) && state.phase == Phase::Refreshing,
        event matches EventView::Replied(reply) && tip_of(reply) is Ok && daemon.last_commit()
            != Some(tip_of(reply)->Ok_0),
        daemon.next(event).0.mode() == Mode::Changed,
{
    reveal_strlit("sh");
    reveal_strlit("git");
    reveal_strlit("pull");
    reveal_strlit("diff");
    reveal_strlit("rev-parse");
    let asked = daemon.next(event).1.action->Run_0;
    assert(asked.program == "git"@);
    assert(asked.args.len() == 2);
    assert(asked.args[0] == "pull"@);
    assert("pull"@[0] != "diff"@[0]);
    assert("pull"@.len() != "rev-parse"@.len());
    assert("git"@.len() != "sh"@.len());
}

/// The user command is asked for on no other occasion than a pull that
/// went through.
pub proof fn user_command_only_after_pull(daemon: DaemonView, event: EventView)
    requires
        daemon.next(event).1.action == ActionView::Run(shell_line(daemon.user_cmd)),
    ensures
        daemon.stage matches StageView::Watching(state) && state.phase == Phase::Pulling,
        event matches EventView::Ran(outcome) && pull_answer(outcome) is Ok,
        daemon.next(event).1.reports == seq![ReportView::Pulled],
{
    reveal_strlit("sh");
    reveal_strlit("git");
    let asked = daemon.next(event).1.action->Run_0;
    assert(asked.program == "sh"@);
    assert("git"@.len() != "sh"@.len());
}

/// A request for the tip is asked for on two occasions only: when the start
/// is over, and when the loop has slept. No request goes out while a pull or
/// a user command is awaited.
pub proof fn request_only_at_start_or_after_sleep(daemon: DaemonView, event: EventView)
    requires
        daemon.next(event).1.action is Fetch,
    ensures
        (daemon.stage matches StageView::Setup(SetupView::Dirty { .. }))
            || (daemon.stage matches StageView::Watching(state) && state.phase == Phase::Sleeping
            && event is Slept),
{
}

/// The loop sleeps on two occasions only: after a reply that names the tip
/// observed last, and after the user command has ended.
pub proof fn sleep_only_after_refresh_or_command(daemon: DaemonView, event: EventView)
    requires
        daemon.next(event).1.action is Sleep,
    ensures
        daemon.stage is Watching,
        daemon.stage->Watching_0.phase == Phase::Refreshing || daemon.stage->Watching_0.phase
            == Phase::Running,
        daemon.stage->Watching_0.phase == Phase::Refreshing ==> (event matches EventView::Replied(
            reply,
        ) && tip_of(reply) is Ok && daemon.last_commit() == Some(tip_of(reply)->Ok_0)),
        daemon.stage->Watching_0.phase == Phase::Running ==> (event matches EventView::Ran(
            outcome,
        ) && outcome is Exited),
{
}

/// The end is final: a daemon that has stopped answers every event with
/// the end and stays as it is.
pub proof fn stopped_is_final(daemon: DaemonView, event: EventView)
    requires
        daemon.mode() == Mode::Stopped,
    ensures
        daemon.next(event).0 == daemon,
        daemon.next(event).1.action is Stop,
        daemon.next(event).1.reports.len() == 0,
{
}

/// An upstream name `<remote>/<branch>` names `<remote>`, for every remote
/// and every branch without a slash.
pub proof fn upstream_names_its_remote(remote: Seq<char>, branch: Seq<char>)
    requires
        !remote.contains('/'),
        !branch.contains('/'),
    ensures
        remote_of(remote + "/"@ + branch) == Some(remote),
{
    reveal_strlit("/");
    let upstream = remote + "/"@ + branch;
    let slash = remote.len() as int;
    assert(upstream[slash] == '/');
    assert forall|j: int| slash < j < upstream.len() implies upstream[j] != '/' by {
        assert(branch.contains(branch[j - slash - 1]));
    }
    upstream.index_of_last_ensures('/');
    assert(upstream.contains('/'));
    assert(upstream.index_of_last('/')->0 == slash);
    assert(upstream.take(slash) =~= remote);
    remote.index_of_last_ensures('/');
}

/// An SSH URL `git@<host>:<owner>/<repo>.git` names `<owner>` and `<repo>`,
/// for every host, every owner without a colon or a slash, and every
/// repository without a colon.
pub proof fn ssh_url_names_owner_and_repo(host: Seq<char>, owner: Seq<char>, repo: Seq<char>)
    requires
        !owner.contains(':'),
        !owner.contains('/'),
        !repo.contains(':'),
    ensures
        coordinates("git@"@ + host + ":"@ + owner + "/"@ + repo + ".git"@) == Ok::<
            (Seq<char>, Seq<char>),
            BrunErrorView,
        >((owner, repo)),
{
    reveal_strlit("git@");
    reveal_strlit(":");
    reveal_strlit("/");
    reveal_strlit(".git");
    let url = "git@"@ + host + ":"@ + owner + "/"@ + repo + ".git"@;
    let colon = 4 + host.len() as int;
    let tail = owner + "/"@ + repo + ".git"@;
    assert(url.subrange(0, 4) =~= "git@"@);
    assert(url[colon] == ':');
    assert(url.skip(colon + 1) =~= tail);
    assert forall|j: int| 0 <= j < tail.len() implies tail[j] != ':' by {
        if j < owner.len() {
            assert(owner.contains(owner[j]));
        } else if j == owner.len() {
        } else if j < owner.len() + 1 + repo.len() {
            assert(repo.contains(repo[j - owner.len() - 1]));
        } else {
        }
    }
    url.index_of_last_ensures(':');
    assert(url.contains(':'));
    let found = url.index_of_last(':')->0;
    if found > colon {
        assert(url[found] == tail[found - colon - 1]);
    }
    assert(found == colon);
    let slash = owner.len() as int;
    assert(tail[slash] == '/');
    assert forall|j: int| 0 <= j < slash implies tail[j] != '/' by {
        assert(owner.contains(owner[j]));
    }
    tail.index_of_first_ensures('/');
    assert(tail.contains('/'));
    assert(tail.index_of_first('/')->0 == slash);
    assert(tail.take(slash) =~= owner);
    let rest = repo + ".git"@;
    assert(tail.skip(slash + 1) =~= rest);
    assert(rest.subrange(rest.len() - 4, rest.len() as int) =~= ".git"@);
    assert(rest.take(rest.len() - 4) =~= repo);
}

/// Every URL that starts with `https://` names no owner at all and the
/// repository `https:`: of its parts between slashes the first is the
/// scheme and the second is empty.
pub proof fn https_url_names_its_scheme(url: Seq<char>)
    requires
        "https://"@.is_prefix_of(url),
    ensures
        coordinates(url) == Ok::<(Seq<char>, Seq<char>), BrunErrorView>(
            (Seq::empty(), "https:"@),
        ),
{
    reveal_strlit("https://");
    reveal_strlit("https:");
    reveal_strlit("http");
    reveal_strlit("git@");
    reveal_strlit(".git");
    let scheme = "https://"@;
    assert forall|j: int| 0 <= j < 8 implies url[j] == scheme[j] by {
        assert(url.subrange(0, 8)[j] == scheme[j]);
    }
    assert(!"git@"@.is_prefix_of(url)) by {
        if "git@"@.is_prefix_of(url) {
            assert(url.subrange(0, 4)[0] == 'g');
        }
    }
    assert(url.subrange(0, 4) =~= "http"@);
    url.index_of_first_ensures('/');
    assert(url[6] == '/');
    assert(url.contains('/'));
    let first = url.index_of_first('/')->0;
    if first < 6 {
        assert(url[first] == scheme[first]);
    }
    assert(first == 6);
    let rest = url.skip(7);
    assert(rest[0] == '/');
    rest.index_of_first_ensures('/');
    assert(rest.contains('/'));
    assert(rest.index_of_first('/')->0 == 0);
    assert(rest.take(0) =~= Seq::<char>::empty());
    let name = url.take(6);
    assert(name =~= "https:"@);
    assert(!".git"@.is_suffix_of(name)) by {
        if ".git"@.is_suffix_of(name) {
            assert(name.subrange(2, 6)[3] == 't');
        }
    }
}

} // verus!
