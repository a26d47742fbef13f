//! The commit objects that the list-commits endpoint of the remote host
//! returns. Only the SHA of the newest commit decides anything; the other
//! fields are carried along as they came.

use vstd::prelude::*;

verus! {

/// Name, address and date of an author or committer.
#[derive(Debug, Clone, PartialEq, Eq)]
pub struct UserInfo {
    pub name: String,
    pub email: String,
    pub date: String,
}

/// The mathematical value of a [`UserInfo`].
pub struct UserInfoView {
    pub name: Seq<char>,
    pub email: Seq<char>,
    pub date: Seq<char>,
}

impl View for UserInfo {
    type V = UserInfoView;

    open spec fn view(&self) -> UserInfoView {
        UserInfoView { name: self.name@, email: self.email@, date: self.date@ }
    }
}

/// The tree that a commit points to.
#[derive(Debug, Clone, PartialEq, Eq)]
pub struct Tree {
    pub sha: String,
}

/// The mathematical value of a [`Tree`].
pub struct TreeView {
    pub sha: Seq<char>,
}

impl View for Tree {
    type V = TreeView;

    open spec fn view(&self) -> TreeView {
        TreeView { sha: self.sha@ }
    }
}

/// What git itself records of a commit.
#[derive(Debug, Clone, PartialEq, Eq)]
pub struct Commit {
    pub author: UserInfo,
    pub committer: UserInfo,
    pub message: String,
    pub tree: Tree,
}

/// The mathematical value of a [`Commit`].
pub struct CommitView {
    pub author: UserInfoView,
    pub committer: UserInfoView,
    pub message: Seq<char>,
    pub tree: TreeView,
}

impl View for Commit {
    type V = CommitView;

    open spec fn view(&self) -> CommitView {
        CommitView {
            author: self.author@,
            committer: self.committer@,
            message: self.message@,
            tree: self.tree@,
        }
    }
}

/// An account on the remote host.
#[derive(Debug, Clone, PartialEq, Eq)]
pub struct User {
    pub login: String,
}

/// The mathematical value of a [`User`].
pub struct UserView {
    pub login: Seq<char>,
}

impl View for User {
    type V = UserView;

    open spec fn view(&self) -> UserView {
        UserView { login: self.login@ }
    }
}

/// A reference to a parent commit.
#[derive(Debug, Clone, PartialEq, Eq)]
pub struct Ref {
    pub sha: String,
    pub url: String,
}

/// The mathematical value of a [`Ref`].
pub struct RefView {
    pub sha: Seq<char>,
    pub url: Seq<char>,
}

impl View for Ref {
    type V = RefView;

    open spec fn view(&self) -> RefView {
        RefView { sha: self.sha@, url: self.url@ }
    }
}

/// One element of the array that the list-commits endpoint returns.
#[derive(Debug, Clone, PartialEq, Eq)]
pub struct CommitResponse {
    /// The commit's identity: compared as it stands, never normalised.
    pub sha: String,
    pub commit: Commit,
    pub url: String,
    pub author: User,
    pub committer: User,
    pub parents: Vec<Ref>,
}

/// The mathematical value of a [`CommitResponse`].
pub struct CommitResponseView {
    pub sha: Seq<char>,
    pub commit: CommitView,
    pub url: Seq<char>,
    pub author: UserView,
    pub committer: UserView,
    pub parents: Seq<RefView>,
}

impl View for CommitResponse {
    type V = CommitResponseView;

    open spec fn view(&self) -> CommitResponseView {
        CommitResponseView {
            sha: self.sha@,
            commit: self.commit@,
            url: self.url@,
            author: self.author@,
            committer: self.committer@,
            parents: Seq::new(self.parents@.len(), |i: int| self.parents@[i]@),
        }
    }
}

/// The mathematical values of the commits in a list, in order.
pub open spec fn commits_view(commits: Vec<CommitResponse>) -> Seq<CommitResponseView> {
    Seq::new(commits@.len(), |i: int| commits@[i]@)
}

} // verus!
