use brun::error::BrunError;

#[test]
fn message_of_missing_token() {
    assert_eq!(
        BrunError::MissingToken.message(),
        "you must set the GH_TOKEN or GITHUB_TOKEN environment variable"
    );
}

#[test]
fn message_of_dirty_tree() {
    assert_eq!(
        BrunError::GitDirty.message(),
        "there are uncommitted changes. Run `git commit`or `git stash` to save the changes and try again."
    );
}

#[test]
fn message_of_empty_history() {
    assert_eq!(BrunError::GitEmptyHistory.message(), "remote repository has no commits");
}

#[test]
fn message_of_not_in_work_tree() {
    assert_eq!(
        BrunError::GitNotinWorkTree.message(),
        "you are not in a git repository (or you are inside the .git directory)"
    );
}

#[test]
fn message_of_no_head() {
    assert_eq!(
        BrunError::GitNoHead(128, "fatal: bad revision".to_string()).message(),
        "failed to retrieve HEAD branch (code=128): fatal: bad revision"
    );
}

#[test]
fn message_of_no_upstream() {
    assert_eq!(
        BrunError::GitNoUpstream(-1, "".to_string()).message(),
        "failed to get upstream branch (code=-1): "
    );
}

#[test]
fn message_of_no_upstream_url() {
    assert_eq!(
        BrunError::GitNoUpstreamURL(2, "error: No such remote".to_string()).message(),
        "failed to get remote url (code=2): error: No such remote"
    );
}

#[test]
fn message_of_bad_remote() {
    assert_eq!(
        BrunError::GitBadRemote("main".to_string()).message(),
        "could not get remote name from upstream branch: main"
    );
}

#[test]
fn message_of_failed_pull() {
    assert_eq!(
        BrunError::PullFailed(1, "fatal: diverged".to_string()).message(),
        "failed to pull the latest changes (code=1): fatal: diverged"
    );
}

#[test]
fn message_of_user_command() {
    assert_eq!(
        BrunError::UserCommand(7, "boom\n".to_string()).message(),
        "user command failed (code=7): boom\n"
    );
}

#[test]
fn message_of_command_failure() {
    assert_eq!(
        BrunError::CommandFailure("git pull".to_string()).message(),
        "failed to start command: git pull"
    );
}

#[test]
fn message_of_command_signaled() {
    assert_eq!(
        BrunError::CommandSignaled("git diff".to_string()).message(),
        "command stopped without status due to signal: git diff"
    );
}

#[test]
fn message_of_io_error() {
    assert_eq!(BrunError::IOError("broken pipe".to_string()).message(), "IOError: broken pipe");
}

#[test]
fn message_of_api_error() {
    assert_eq!(
        BrunError::APIError("HTTP status 401".to_string()).message(),
        "failed to request API: HTTP status 401"
    );
}

#[test]
fn message_of_internal_error() {
    assert_eq!(
        BrunError::InternalError("unexpected event".to_string()).message(),
        "error: unexpected event"
    );
}
