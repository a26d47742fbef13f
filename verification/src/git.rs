//! Questions to the local `git` binary, and how its answers are read.
//!
//! Each question is a fixed command line. Each answer is read from the
//! outcome that the subprocess runner reports for that command line.

use crate::error::{
    flag_outcome, pair_outcome, text_outcome, unit_outcome, BrunError, BrunErrorView,
};
use crate::process::{command, command_line, CommandLine, CommandLineView, Outcome, OutcomeView};
use crate::text::{
    chars_of, find_first, find_last, has_prefix, has_suffix, slice_text, trim, trim_text,
};
use vstd::prelude::*;
use vstd::string::*;

verus! {

/// `git rev-parse --is-inside-work-tree`.
pub open spec fn work_tree_line() -> CommandLineView {
    command_line("git"@, seq!["rev-parse"@, "--is-inside-work-tree"@])
}

/// `git rev-parse --abbrev-ref HEAD`.
pub open spec fn head_line() -> CommandLineView {
    command_line("git"@, seq!["rev-parse"@, "--abbrev-ref"@, "HEAD"@])
}

/// `git rev-parse --abbrev-ref --symbolic-full-name <branch>@{upstream}`.
pub open spec fn upstream_line(branch: Seq<char>) -> CommandLineView {
    command_line(
        "git"@,
        seq!["rev-parse"@, "--abbrev-ref"@, "--symbolic-full-name"@, branch + "@{upstream}"@],
    )
}

/// `git remote get-url <remote>`.
pub open spec fn remote_url_line(remote: Seq<char>) -> CommandLineView {
    command_line("git"@, seq!["remote"@, "get-url"@, remote])
}

/// `git diff --quiet`.
pub open spec fn dirty_line() -> CommandLineView {
    command_line("git"@, seq!["diff"@, "--quiet"@])
}

/// `git pull --ff-only`.
pub open spec fn pull_line() -> CommandLineView {
    command_line("git"@, seq!["pull"@, "--ff-only"@])
}

/// The command that asks whether the current directory is inside a work tree.
pub fn work_tree_query() -> (line: CommandLine)
    ensures
        line@ == work_tree_line(),
{
    let mut args: Vec<String> = Vec::new();
    args.push(String::from_str("rev-parse"));
    args.push(String::from_str("--is-inside-work-tree"));
    assert(args.deep_view() =~= seq!["rev-parse"@, "--is-inside-work-tree"@]);
    command("git", args)
}

/// The command that asks for the branch that HEAD names.
pub fn head_query() -> (line: CommandLine)
    ensures
        line@ == head_line(),
{
    let mut args: Vec<String> = Vec::new();
    args.push(String::from_str("rev-parse"));
    args.push(String::from_str("--abbrev-ref"));
    args.push(String::from_str("HEAD"));
    assert(args.deep_view() =~= seq!["rev-parse"@, "--abbrev-ref"@, "HEAD"@]);
    command("git", args)
}

/// The command that asks for the upstream of `branch`.
pub fn upstream_query(branch: &str) -> (line: CommandLine)
    ensures
        line@ == upstream_line(branch@),
{
    let mut target = String::from_str(branch);
    target.append("@{upstream}");
    let mut args: Vec<String> = Vec::new();
    args.push(String::from_str("rev-parse"));
    args.push(String::from_str("--abbrev-ref"));
    args.push(String::from_str("--symbolic-full-name"));
    args.push(target);
    assert(args.deep_view() =~= seq![
        "rev-parse"@,
        "--abbrev-ref"@,
        "--symbolic-full-name"@,
        branch@ + "@{upstream}"@,
    ]);
    command("git", args)
}

/// The command that asks for the URL of `remote`.
pub fn remote_url_query(remote: &str) -> (line: CommandLine)
    ensures
        line@ == remote_url_line(remote@),
{
    let mut args: Vec<String> = Vec::new();
    args.push(String::from_str("remote"));
    args.push(String::from_str("get-url"));
    args.push(String::from_str(remote));
    assert(args.deep_view() =~= seq!["remote"@, "get-url"@, remote@]);
    command("git", args)
}

/// The command that asks whether the work tree differs from the index.
pub fn dirty_query() -> (line: CommandLine)
    ensures
        line@ == dirty_line(),
{
    let mut args: Vec<String> = Vec::new();
    args.push(String::from_str("diff"));
    args.push(String::from_str("--quiet"));
    assert(args.deep_view() =~= seq!["diff"@, "--quiet"@]);
    command("git", args)
}

/// The command that fast-forwards the checkout to its upstream.
pub fn pull_command() -> (line: CommandLine)
    ensures
        line@ == pull_line(),
{
    let mut args: Vec<String> = Vec::new();
    args.push(String::from_str("pull"));
    args.push(String::from_str("--ff-only"));
    assert(args.deep_view() =~= seq!["pull"@, "--ff-only"@]);
    command("git", args)
}

/// What the answer to [`work_tree_query`] says: inside a work tree exactly
/// where the exit code is zero.
pub open spec fn work_tree_answer(outcome: OutcomeView) -> Result<bool, BrunErrorView> {
    match outcome {
        OutcomeView::LaunchFailed => Err(
            BrunErrorView::CommandFailure("git rev-parse --is-inside-work-tree"@),
        ),
        OutcomeView::Exited(output) => match output.code {
            Some(code) => Ok(code == 0),
            None => Err(BrunErrorView::CommandSignaled("git rev-parse --is-inside-work-tree"@)),
        },
    }
}

/// What the answer to [`dirty_query`] says: uncommitted changes exactly where
/// the exit code is not zero.
pub open spec fn dirty_answer(outcome: OutcomeView) -> Result<bool, BrunErrorView> {
    match outcome {
        OutcomeView::LaunchFailed => Err(BrunErrorView::CommandFailure("git diff"@)),
        OutcomeView::Exited(output) => match output.code {
            Some(code) => Ok(code != 0),
            None => Err(BrunErrorView::CommandSignaled("git diff"@)),
        },
    }
}

/// What the outcome of [`pull_command`] says: the pull went through exactly
/// where the exit code is zero.
pub open spec fn pull_answer(outcome: OutcomeView) -> Result<(), BrunErrorView> {
    match outcome {
        OutcomeView::LaunchFailed => Err(BrunErrorView::CommandFailure("git pull"@)),
        OutcomeView::Exited(output) => match output.code {
            Some(code) => if code == 0 {
                Ok(())
            } else {
                Err(BrunErrorView::PullFailed(code, output.stderr))
            },
            None => Err(BrunErrorView::CommandSignaled("git pull"@)),
        },
    }
}

/// What the answer to [`head_query`] says: the trimmed output is the branch.
pub open spec fn head_answer(outcome: OutcomeView) -> Result<Seq<char>, BrunErrorView> {
    match outcome {
        OutcomeView::LaunchFailed => Err(BrunErrorView::CommandFailure("git rev-parse HEAD"@)),
        OutcomeView::Exited(output) => if output.success() {
            Ok(trim(output.stdout))
        } else {
            Err(BrunErrorView::GitNoHead(output.code_or_default(), output.stderr))
        },
    }
}

/// The remote in an upstream name `<remote>/<branch>`: what stands between
/// the last slash and the slash before it, or the start of the name.
pub open spec fn remote_of(upstream: Seq<char>) -> Option<Seq<char>> {
    match upstream.index_of_last('/') {
        Some(end) => {
            let head = upstream.take(end);
            match head.index_of_last('/') {
                Some(start) => Some(head.skip(start + 1)),
                None => Some(head),
            }
        },
        None => None,
    }
}

/// What the answer to [`upstream_query`] says: the remote that the trimmed
/// output names.
pub open spec fn upstream_remote_answer(outcome: OutcomeView) -> Result<Seq<char>, BrunErrorView> {
    match outcome {
        OutcomeView::LaunchFailed => Err(BrunErrorView::CommandFailure("git diff"@)),
        OutcomeView::Exited(output) => if output.success() {
            match remote_of(trim(output.stdout)) {
                Some(remote) => Ok(remote),
                None => Err(BrunErrorView::GitBadRemote(trim(output.stdout))),
            }
        } else {
            Err(BrunErrorView::GitNoUpstream(output.code_or_default(), output.stderr))
        },
    }
}

/// `repo` without one `.git` at its end.
pub open spec fn strip_git(repo: Seq<char>) -> Seq<char> {
    if ".git"@.is_suffix_of(repo) {
        repo.take(repo.len() - ".git"@.len())
    } else {
        repo
    }
}

/// Owner and repository of an SSH URL: what follows the last colon is
/// `<owner>/<repo>`, split at its first slash.
pub open spec fn ssh_coordinates(url: Seq<char>) -> Result<(Seq<char>, Seq<char>), BrunErrorView> {
    let path = match url.index_of_last(':') {
        Some(colon) => url.skip(colon + 1),
        None => url,
    };
    match path.index_of_first('/') {
        Some(slash) => Ok((path.take(slash), strip_git(path.skip(slash + 1)))),
        None => Err(BrunErrorView::GitBadRemote(url)),
    }
}

/// Owner and repository of any other URL, which has to start with `http`:
/// of its parts between slashes the first is the repository and the second
/// the owner.
pub open spec fn http_coordinates(url: Seq<char>) -> Result<(Seq<char>, Seq<char>), BrunErrorView> {
    if !"http"@.is_prefix_of(url) {
        Err(BrunErrorView::InternalError("the URL to start with http: "@ + url))
    } else {
        match url.index_of_first('/') {
            Some(slash) => {
                let rest = url.skip(slash + 1);
                let second = match rest.index_of_first('/') {
                    Some(next) => rest.take(next),
                    None => rest,
                };
                Ok((second, strip_git(url.take(slash))))
            },
            None => Err(
                BrunErrorView::InternalError("the URI to have at least one slash: "@ + url),
            ),
        }
    }
}

/// Owner and repository that the URL of a remote names.
pub open spec fn coordinates(url: Seq<char>) -> Result<(Seq<char>, Seq<char>), BrunErrorView> {
    if "git@"@.is_prefix_of(url) {
        ssh_coordinates(url)
    } else {
        http_coordinates(url)
    }
}

/// What the answer to [`remote_url_query`] says: the owner and repository
/// that the trimmed output names.
pub open spec fn upstream_info_answer(outcome: OutcomeView) -> Result<
    (Seq<char>, Seq<char>),
    BrunErrorView,
> {
    match outcome {
        OutcomeView::LaunchFailed => Err(
            BrunErrorView::CommandFailure("git remote get-url <remote>"@),
        ),
        OutcomeView::Exited(output) => if output.success() {
            coordinates(trim(output.stdout))
        } else {
            Err(BrunErrorView::GitNoUpstreamURL(output.code_or_default(), output.stderr))
        },
    }
}

/// Reads whether the current directory is inside a work tree.
pub fn git_is_work_tree(outcome: Outcome) -> (r: Result<bool, BrunError>)
    ensures
        flag_outcome(r) == work_tree_answer(outcome@),
{
    match outcome {
        Outcome::LaunchFailed => Err(
            BrunError::CommandFailure(String::from_str("git rev-parse --is-inside-work-tree")),
        ),
        Outcome::Exited(output) => match output.code {
            Some(code) => Ok(code == 0),
            None => Err(
                BrunError::CommandSignaled(String::from_str("git rev-parse --is-inside-work-tree")),
            ),
        },
    }
}

/// Reads whether the work tree has changes that a pull could run into.
pub fn git_has_unstashed_changes(outcome: Outcome) -> (r: Result<bool, BrunError>)
    ensures
        flag_outcome(r) == dirty_answer(outcome@),
{
    match outcome {
        Outcome::LaunchFailed => Err(BrunError::CommandFailure(String::from_str("git diff"))),
        Outcome::Exited(output) => match output.code {
            Some(code) => Ok(code != 0),
            None => Err(BrunError::CommandSignaled(String::from_str("git diff"))),
        },
    }
}

/// Reads whether the pull went through.
pub fn git_pull(outcome: Outcome) -> (r: Result<(), BrunError>)
    ensures
        unit_outcome(r) == pull_answer(outcome@),
{
    match outcome {
        Outcome::LaunchFailed => Err(BrunError::CommandFailure(String::from_str("git pull"))),
        Outcome::Exited(output) => match output.code {
            Some(code) => {
                if code == 0 {
                    Ok(())
                } else {
                    Err(BrunError::PullFailed(code, output.stderr))
                }
            },
            None => Err(BrunError::CommandSignaled(String::from_str("git pull"))),
        },
    }
}

/// Reads the branch that HEAD names.
pub fn git_head(outcome: Outcome) -> (r: Result<String, BrunError>)
    ensures
        text_outcome(r) == head_answer(outcome@),
{
    match outcome {
        Outcome::LaunchFailed => Err(
            BrunError::CommandFailure(String::from_str("git rev-parse HEAD")),
        ),
        Outcome::Exited(output) => {
            if output.success() {
                Ok(trim_text(output.stdout.as_str()))
            } else {
                Err(BrunError::GitNoHead(output.code_or_default(), output.stderr))
            }
        },
    }
}

/// Finds the remote in an upstream name `<remote>/<branch>`.
pub fn remote_name(upstream: &str) -> (remote: Option<String>)
    ensures
        remote.deep_view() == remote_of(upstream@),
{
    let chars = chars_of(upstream);
    let n = chars.len();
    assert(chars@.subrange(0, n as int) =~= upstream@);
    match find_last(&chars, 0, n, '/') {
        None => None,
        Some(end) => {
            assert(chars@.subrange(0, end as int) =~= upstream@.take(end as int));
            let start = match find_last(&chars, 0, end, '/') {
                Some(slash) => slash + 1,
                None => 0,
            };
            let remote = slice_text(upstream, start, end);
            assert(remote@ =~= upstream@.take(end as int).skip(start as int));
            assert(upstream@.take(end as int).skip(0) =~= upstream@.take(end as int));
            Some(remote)
        },
    }
}

/// Reads the remote that the upstream of the branch belongs to.
pub fn git_upstream_remote(outcome: Outcome) -> (r: Result<String, BrunError>)
    ensures
        text_outcome(r) == upstream_remote_answer(outcome@),
{
    match outcome {
        Outcome::LaunchFailed => Err(BrunError::CommandFailure(String::from_str("git diff"))),
        Outcome::Exited(output) => {
            if output.success() {
                let upstream = trim_text(output.stdout.as_str());
                match remote_name(upstream.as_str()) {
                    Some(remote) => Ok(remote),
                    None => Err(BrunError::GitBadRemote(upstream)),
                }
            } else {
                Err(BrunError::GitNoUpstream(output.code_or_default(), output.stderr))
            }
        },
    }
}

/// The characters of `text` from `lo` up to `hi`, without one `.git` at their end.
fn stripped(text: &str, chars: &Vec<char>, lo: usize, hi: usize) -> (repo: String)
    requires
        chars@ == text@,
        lo <= hi <= chars@.len(),
    ensures
        repo@ == strip_git(text@.subrange(lo as int, hi as int)),
{
    proof {
        reveal_strlit(".git");
    }
    if has_suffix(chars, lo, hi, ".git") {
        let repo = slice_text(text, lo, hi - 4);
        assert(repo@ =~= text@.subrange(lo as int, hi as int).take(hi - lo - 4));
        repo
    } else {
        slice_text(text, lo, hi)
    }
}

/// Reads owner and repository from the URL of a remote.
pub fn parse_remote_url(url: &str) -> (r: Result<(String, String), BrunError>)
    ensures
        pair_outcome(r) == coordinates(url@),
{
    let chars = chars_of(url);
    let n = chars.len();
    assert(chars@.subrange(0, n as int) =~= url@);
    if has_prefix(&chars, 0, n, "git@") {
        let from = match find_last(&chars, 0, n, ':') {
            Some(colon) => colon + 1,
            None => 0,
        };
        let ghost path = url@.skip(from as int);
        assert(chars@.subrange(from as int, n as int) =~= path);
        match find_first(&chars, from, n, '/') {
            Some(slash) => {
                let owner = slice_text(url, from, slash);
                let repo = stripped(url, &chars, slash + 1, n);
                proof {
                    assert(url@.skip(0) =~= url@);
                    assert(owner@ =~= path.take(slash - from));
                    assert(url@.subrange(slash + 1, n as int) =~= path.skip(slash - from + 1));
                }
                Ok((owner, repo))
            },
            None => {
                proof {
                    assert(url@.skip(0) =~= url@);
                }
                Err(BrunError::GitBadRemote(String::from_str(url)))
            },
        }
    } else if !has_prefix(&chars, 0, n, "http") {
        let mut detail = String::from_str("the URL to start with http: ");
        detail.append(url);
        Err(BrunError::InternalError(detail))
    } else {
        match find_first(&chars, 0, n, '/') {
            Some(slash) => {
                let ghost rest = url@.skip(slash + 1);
                assert(chars@.subrange(slash + 1, n as int) =~= rest);
                let end = match find_first(&chars, slash + 1, n, '/') {
                    Some(next) => next,
                    None => n,
                };
                let owner = slice_text(url, slash + 1, end);
                let repo = stripped(url, &chars, 0, slash);
                proof {
                    assert(owner@ =~= rest.take(end - slash - 1));
                    assert(rest.take(rest.len() as int) =~= rest);
                    assert(url@.subrange(0, slash as int) =~= url@.take(slash as int));
                }
                Ok((owner, repo))
            },
            None => {
                let mut detail = String::from_str("the URI to have at least one slash: ");
                detail.append(url);
                Err(BrunError::InternalError(detail))
            },
        }
    }
}

/// Reads owner and repository of the remote from its URL.
pub fn git_upstream_info(outcome: Outcome) -> (r: Result<(String, String), BrunError>)
    ensures
        pair_outcome(r) == upstream_info_answer(outcome@),
{
    match outcome {
        Outcome::LaunchFailed => Err(
            BrunError::CommandFailure(String::from_str("git remote get-url <remote>")),
        ),
        Outcome::Exited(output) => {
            if output.success() {
                let url = trim_text(output.stdout.as_str());
                parse_remote_url(url.as_str())
            } else {
                Err(BrunError::GitNoUpstreamURL(output.code_or_default(), output.stderr))
            }
        },
    }
}

} // verus!
