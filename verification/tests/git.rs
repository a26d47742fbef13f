use brun::error::BrunError;
use brun::git::{
    dirty_query, git_has_unstashed_changes, git_head, git_is_work_tree, git_pull,
    git_upstream_info, git_upstream_remote, head_query, parse_remote_url, pull_command,
    remote_name, remote_url_query, upstream_query, work_tree_query,
};
use brun::process::{shell_command, CommandLine, CommandOutput, Outcome};
use brun::repo::{GitConfig, GitConfigStep, RemoteRepo};

fn exited(code: Option<i32>, stdout: &str, stderr: &str) -> Outcome {
    Outcome::Exited(CommandOutput::new(code, stdout.as_bytes(), stderr.as_bytes()))
}

fn line(program: &str, args: &[&str]) -> CommandLine {
    CommandLine {
        program: program.to_string(),
        args: args.iter().map(|a| a.to_string()).collect(),
    }
}

fn pair(owner: &str, repo: &str) -> Result<(String, String), BrunError> {
    Ok((owner.to_string(), repo.to_string()))
}

#[test]
fn command_output_decodes_valid_text() {
    let output = CommandOutput::new(Some(0), b"main\n", "caf\u{e9}".as_bytes());
    assert_eq!(output.code, Some(0));
    assert_eq!(output.stdout, "main\n");
    assert_eq!(output.stderr, "caf\u{e9}");
}

#[test]
fn command_output_replaces_invalid_bytes() {
    let output = CommandOutput::new(None, &[b'a', 0xFF, b'b'], &[0xC3]);
    assert_eq!(output.code, None);
    assert_eq!(output.stdout, "a\u{FFFD}b");
    assert_eq!(output.stderr, "\u{FFFD}");
}

#[test]
fn command_output_success_and_code() {
    assert!(CommandOutput::new(Some(0), b"", b"").success());
    assert!(!CommandOutput::new(Some(1), b"", b"").success());
    assert!(!CommandOutput::new(None, b"", b"").success());
    assert_eq!(CommandOutput::new(Some(7), b"", b"").code_or_default(), 7);
    assert_eq!(CommandOutput::new(None, b"", b"").code_or_default(), -1);
}

#[test]
fn queries_have_fixed_arguments() {
    assert_eq!(work_tree_query(), line("git", &["rev-parse", "--is-inside-work-tree"]));
    assert_eq!(head_query(), line("git", &["rev-parse", "--abbrev-ref", "HEAD"]));
    assert_eq!(dirty_query(), line("git", &["diff", "--quiet"]));
    assert_eq!(pull_command(), line("git", &["pull", "--ff-only"]));
}

#[test]
fn upstream_query_names_the_branch() {
    assert_eq!(
        upstream_query("main"),
        line(
            "git",
            &["rev-parse", "--abbrev-ref", "--symbolic-full-name", "main@{upstream}"]
        )
    );
}

#[test]
fn remote_url_query_names_the_remote() {
    assert_eq!(remote_url_query("origin"), line("git", &["remote", "get-url", "origin"]));
}

#[test]
fn shell_command_hands_the_text_over_whole() {
    let cmd = "echo a | wc -c; echo $HOME && ls *.rs > 'out file'";
    assert_eq!(shell_command(cmd), line("sh", &["-c", cmd]));
}

#[test]
fn work_tree_is_told_by_exit_code() {
    assert_eq!(git_is_work_tree(exited(Some(0), "true\n", "")), Ok(true));
    assert_eq!(git_is_work_tree(exited(Some(128), "", "fatal: not a git repository")), Ok(false));
    assert_eq!(git_is_work_tree(exited(Some(1), "", "")), Ok(false));
}

#[test]
fn work_tree_signaled_and_not_started() {
    assert_eq!(
        git_is_work_tree(exited(None, "", "")),
        Err(BrunError::CommandSignaled("git rev-parse --is-inside-work-tree".to_string()))
    );
    assert_eq!(
        git_is_work_tree(Outcome::LaunchFailed),
        Err(BrunError::CommandFailure("git rev-parse --is-inside-work-tree".to_string()))
    );
}

#[test]
fn dirty_is_told_by_exit_code() {
    assert_eq!(git_has_unstashed_changes(exited(Some(0), "", "")), Ok(false));
    assert_eq!(git_has_unstashed_changes(exited(Some(1), "", "")), Ok(true));
    assert_eq!(git_has_unstashed_changes(exited(Some(129), "", "usage")), Ok(true));
}

#[test]
fn dirty_signaled_and_not_started() {
    assert_eq!(
        git_has_unstashed_changes(exited(None, "", "")),
        Err(BrunError::CommandSignaled("git diff".to_string()))
    );
    assert_eq!(
        git_has_unstashed_changes(Outcome::LaunchFailed),
        Err(BrunError::CommandFailure("git diff".to_string()))
    );
}

#[test]
fn head_is_the_trimmed_output() {
    assert_eq!(git_head(exited(Some(0), "main\n", "")), Ok("main".to_string()));
    assert_eq!(git_head(exited(Some(0), "  feature/x \n", "ignored")), Ok("feature/x".to_string()));
    assert_eq!(git_head(exited(Some(0), "", "")), Ok("".to_string()));
}

#[test]
fn head_failure_keeps_code_and_stderr() {
    assert_eq!(
        git_head(exited(Some(128), "HEAD\n", "fatal: ambiguous argument 'HEAD'\n")),
        Err(BrunError::GitNoHead(128, "fatal: ambiguous argument 'HEAD'\n".to_string()))
    );
    assert_eq!(
        git_head(exited(None, "", "killed")),
        Err(BrunError::GitNoHead(-1, "killed".to_string()))
    );
    assert_eq!(
        git_head(Outcome::LaunchFailed),
        Err(BrunError::CommandFailure("git rev-parse HEAD".to_string()))
    );
}

#[test]
fn remote_name_is_the_token_before_the_last() {
    assert_eq!(remote_name("origin/main"), Some("origin".to_string()));
    assert_eq!(remote_name("upstream/dev"), Some("upstream".to_string()));
    assert_eq!(remote_name("/main"), Some("".to_string()));
    assert_eq!(remote_name("origin/"), Some("origin".to_string()));
}

#[test]
fn remote_name_needs_a_slash() {
    assert_eq!(remote_name("main"), None);
    assert_eq!(remote_name(""), None);
}

#[test]
fn remote_name_with_a_slash_in_the_branch() {
    assert_eq!(remote_name("origin/feature/x"), Some("feature".to_string()));
    assert_eq!(remote_name("a/b/c/d"), Some("c".to_string()));
}

#[test]
fn remote_name_agrees_with_rsplit() {
    let samples = ["origin/main", "a/b/c", "/", "//", "x", "", "a//b", "é/ü/ß"];
    for s in samples {
        assert_eq!(remote_name(s), s.rsplit('/').nth(1).map(|t| t.to_string()), "{}", s);
    }
}

#[test]
fn upstream_remote_from_the_answer() {
    assert_eq!(git_upstream_remote(exited(Some(0), "origin/main\n", "")), Ok("origin".to_string()));
}

#[test]
fn upstream_remote_without_a_slash_is_a_bad_remote() {
    assert_eq!(
        git_upstream_remote(exited(Some(0), " main \n", "")),
        Err(BrunError::GitBadRemote("main".to_string()))
    );
}

#[test]
fn upstream_remote_failure_keeps_code_and_stderr() {
    assert_eq!(
        git_upstream_remote(exited(Some(128), "", "fatal: no upstream configured\n")),
        Err(BrunError::GitNoUpstream(128, "fatal: no upstream configured\n".to_string()))
    );
    assert_eq!(
        git_upstream_remote(exited(None, "origin/main\n", "")),
        Err(BrunError::GitNoUpstream(-1, "".to_string()))
    );
    assert_eq!(
        git_upstream_remote(Outcome::LaunchFailed),
        Err(BrunError::CommandFailure("git diff".to_string()))
    );
}

#[test]
fn ssh_url_yields_owner_and_repo() {
    assert_eq!(parse_remote_url("git@host.tld:owner/repo.git"), pair("owner", "repo"));
    assert_eq!(parse_remote_url("git@github.com:rust-lang/rust.git"), pair("rust-lang", "rust"));
}

#[test]
fn ssh_url_without_the_suffix() {
    assert_eq!(parse_remote_url("git@host.tld:owner/repo"), pair("owner", "repo"));
}

#[test]
fn ssh_url_strips_the_suffix_once() {
    assert_eq!(parse_remote_url("git@host.tld:owner/repo.git.git"), pair("owner", "repo.git"));
    assert_eq!(parse_remote_url("git@host.tld:owner/.git"), pair("owner", ""));
}

#[test]
fn ssh_url_splits_at_the_first_slash_after_the_last_colon() {
    assert_eq!(parse_remote_url("git@host.tld:22:owner/group/repo.git"), pair("owner", "group/repo"));
    assert_eq!(parse_remote_url("git@host.tld/owner/repo.git"), pair("git@host.tld", "owner/repo"));
}

#[test]
fn ssh_url_without_a_slash_is_a_bad_remote() {
    assert_eq!(
        parse_remote_url("git@host.tld:repo.git"),
        Err(BrunError::GitBadRemote("git@host.tld:repo.git".to_string()))
    );
    assert_eq!(
        parse_remote_url("git@host.tld/owner:repo"),
        Err(BrunError::GitBadRemote("git@host.tld/owner:repo".to_string()))
    );
}

#[test]
fn https_url_yields_first_token_as_repo_and_second_as_owner() {
    assert_eq!(parse_remote_url("https://host.tld/owner/repo.git"), pair("", "https:"));
    assert_eq!(parse_remote_url("http://host.tld/owner/repo.git"), pair("", "http:"));
}

#[test]
fn http_like_url_without_a_scheme_separator() {
    assert_eq!(parse_remote_url("http.git/owner/rest"), pair("owner", "http"));
    assert_eq!(parse_remote_url("httpx/owner"), pair("owner", "httpx"));
    assert_eq!(parse_remote_url("http/"), pair("", "http"));
}

#[test]
fn http_url_without_a_slash_is_an_internal_error() {
    assert_eq!(
        parse_remote_url("http"),
        Err(BrunError::InternalError("the URI to have at least one slash: http".to_string()))
    );
    assert_eq!(
        parse_remote_url("https:host.tld"),
        Err(BrunError::InternalError(
            "the URI to have at least one slash: https:host.tld".to_string()
        ))
    );
}

#[test]
fn other_url_is_an_internal_error() {
    assert_eq!(
        parse_remote_url("ssh://git@host.tld/owner/repo.git"),
        Err(BrunError::InternalError(
            "the URL to start with http: ssh://git@host.tld/owner/repo.git".to_string()
        ))
    );
    assert_eq!(
        parse_remote_url(""),
        Err(BrunError::InternalError("the URL to start with http: ".to_string()))
    );
}

#[test]
fn upstream_info_from_the_answer() {
    assert_eq!(
        git_upstream_info(exited(Some(0), "git@host.tld:owner/repo.git\n", "")),
        pair("owner", "repo")
    );
    assert_eq!(
        git_upstream_info(exited(Some(0), "https://host.tld/owner/repo.git\n", "")),
        pair("", "https:")
    );
}

#[test]
fn upstream_info_failure_keeps_code_and_stderr() {
    assert_eq!(
        git_upstream_info(exited(Some(2), "", "error: No such remote 'feature'\n")),
        Err(BrunError::GitNoUpstreamURL(2, "error: No such remote 'feature'\n".to_string()))
    );
    assert_eq!(
        git_upstream_info(exited(None, "", "x")),
        Err(BrunError::GitNoUpstreamURL(-1, "x".to_string()))
    );
    assert_eq!(
        git_upstream_info(Outcome::LaunchFailed),
        Err(BrunError::CommandFailure("git remote get-url <remote>".to_string()))
    );
}

#[test]
fn pull_is_told_by_exit_code() {
    assert_eq!(git_pull(exited(Some(0), "Already up to date.\n", "")), Ok(()));
    assert_eq!(
        git_pull(exited(Some(1), "", "fatal: Not possible to fast-forward, aborting.\n")),
        Err(BrunError::PullFailed(
            1,
            "fatal: Not possible to fast-forward, aborting.\n".to_string()
        ))
    );
    assert_eq!(
        git_pull(exited(None, "", "")),
        Err(BrunError::CommandSignaled("git pull".to_string()))
    );
    assert_eq!(
        git_pull(Outcome::LaunchFailed),
        Err(BrunError::CommandFailure("git pull".to_string()))
    );
}

#[test]
fn gitconfig_is_read_in_three_answers() {
    let step = RemoteRepo::try_from_gitconfig(GitConfig::Head, exited(Some(0), "main\n", ""));
    assert_eq!(
        step,
        GitConfigStep::Ask(GitConfig::Upstream { branch: "main".to_string() }, upstream_query("main"))
    );
    let step = RemoteRepo::try_from_gitconfig(
        GitConfig::Upstream { branch: "main".to_string() },
        exited(Some(0), "origin/main\n", ""),
    );
    assert_eq!(
        step,
        GitConfigStep::Ask(
            GitConfig::RemoteUrl { branch: "main".to_string() },
            remote_url_query("origin")
        )
    );
    let step = RemoteRepo::try_from_gitconfig(
        GitConfig::RemoteUrl { branch: "main".to_string() },
        exited(Some(0), "git@host.tld:owner/repo.git\n", ""),
    );
    assert_eq!(
        step,
        GitConfigStep::Ready(RemoteRepo {
            username: "owner".to_string(),
            repo_name: "repo".to_string(),
            branch: "main".to_string(),
        })
    );
}

#[test]
fn gitconfig_stops_at_the_first_failure() {
    assert_eq!(
        RemoteRepo::try_from_gitconfig(GitConfig::Head, exited(Some(128), "", "fatal")),
        GitConfigStep::Failed(BrunError::GitNoHead(128, "fatal".to_string()))
    );
    assert_eq!(
        RemoteRepo::try_from_gitconfig(
            GitConfig::Upstream { branch: "main".to_string() },
            exited(Some(0), "main\n", "")
        ),
        GitConfigStep::Failed(BrunError::GitBadRemote("main".to_string()))
    );
    assert_eq!(
        RemoteRepo::try_from_gitconfig(
            GitConfig::RemoteUrl { branch: "main".to_string() },
            exited(Some(2), "", "error")
        ),
        GitConfigStep::Failed(BrunError::GitNoUpstreamURL(2, "error".to_string()))
    );
    assert_eq!(
        RemoteRepo::try_from_gitconfig(GitConfig::Head, Outcome::LaunchFailed),
        GitConfigStep::Failed(BrunError::CommandFailure("git rev-parse HEAD".to_string()))
    );
}
