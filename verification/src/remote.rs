//! The seam between the polling loop and the host that serves the branch.
//!
//! A remote says which request asks for the tip of its branch, and records
//! the tip that the reply to that request names. Sending the request is the
//! caller's part.

pub mod github;

use crate::commit::{commits_view, CommitResponse, CommitResponseView};
use crate::error::{text_outcome, BrunError, BrunErrorView};
use crate::text::{decimal, decimal_text};
use vstd::prelude::*;
use vstd::string::*;

verus! {

/// An HTTP GET: where to send it and with which headers.
#[derive(Debug, Clone, PartialEq, Eq)]
pub struct Request {
    pub url: String,
    /// Header names and values, in the order in which they are to be set.
    pub headers: Vec<(String, String)>,
}

/// The mathematical value of a [`Request`].
pub struct RequestView {
    pub url: Seq<char>,
    pub headers: Seq<(Seq<char>, Seq<char>)>,
}

impl View for Request {
    type V = RequestView;

    open spec fn view(&self) -> RequestView {
        RequestView { url: self.url@, headers: self.headers.deep_view() }
    }
}

/// What came back for a [`Request`].
#[derive(Debug, PartialEq, Eq)]
pub enum Reply {
    /// No response arrived: a transport or TLS error, with its description.
    Unreachable(String),
    /// A response arrived.
    Answered {
        /// The HTTP status code.
        status: u16,
        /// The body read as a JSON array of commits, or why it could not be
        /// read as one.
        commits: Result<Vec<CommitResponse>, String>,
    },
}

/// The mathematical value of a [`Reply`].
pub enum ReplyView {
    Unreachable(Seq<char>),
    Answered { status: u16, commits: Result<Seq<CommitResponseView>, Seq<char>> },
}

impl View for Reply {
    type V = ReplyView;

    open spec fn view(&self) -> ReplyView {
        match *self {
            Reply::Unreachable(detail) => ReplyView::Unreachable(detail@),
            Reply::Answered { status, commits } => ReplyView::Answered {
                status,
                commits: match commits {
                    Ok(list) => Ok(commits_view(list)),
                    Err(detail) => Err(detail@),
                },
            },
        }
    }
}

/// The detail that an error status is reported with.
pub open spec fn status_detail(status: u16) -> Seq<char> {
    "HTTP status "@ + decimal(status as int)
}

/// The tip of the branch according to a reply: the SHA of the first commit
/// in the list. A status of 400 or more, a missing response and an unreadable
/// body are API errors; an empty list is an empty history.
pub open spec fn tip_of(reply: ReplyView) -> Result<Seq<char>, BrunErrorView> {
    match reply {
        ReplyView::Unreachable(detail) => Err(BrunErrorView::APIError(detail)),
        ReplyView::Answered { status, commits } => if status >= 400 {
            Err(BrunErrorView::APIError(status_detail(status)))
        } else {
            match commits {
                Err(detail) => Err(BrunErrorView::APIError(detail)),
                Ok(list) => if list.len() == 0 {
                    Err(BrunErrorView::GitEmptyHistory)
                } else {
                    Ok(list[0].sha)
                },
            }
        },
    }
}

/// Reads the tip of the branch from a reply.
pub fn tip(reply: Reply) -> (r: Result<String, BrunError>)
    ensures
        text_outcome(r) == tip_of(reply@),
{
    match reply {
        Reply::Unreachable(detail) => Err(BrunError::APIError(detail)),
        Reply::Answered { status, commits } => {
            if status >= 400 {
                let mut detail = String::from_str("HTTP status ");
                let number = decimal_text(status as i32);
                detail.append(number.as_str());
                Err(BrunError::APIError(detail))
            } else {
                match commits {
                    Err(detail) => Err(BrunError::APIError(detail)),
                    Ok(list) => {
                        let mut list = list;
                        if list.len() == 0 {
                            Err(BrunError::GitEmptyHistory)
                        } else {
                            let first = list.swap_remove(0);
                            Ok(first.sha)
                        }
                    },
                }
            }
        },
    }
}

/// What recording a reply leaves as the last observed tip: the tip that the
/// reply names, or the tip observed before where the reply names none.
pub open spec fn observed_after(before: Option<Seq<char>>, reply: ReplyView) -> Option<Seq<char>> {
    match tip_of(reply) {
        Ok(tip) => Some(tip),
        Err(_) => before,
    }
}

/// What recording a reply returns: the tip observed before, or the error
/// that the reply amounts to.
pub open spec fn displaced_by(before: Option<Seq<char>>, reply: ReplyView) -> Result<
    Option<Seq<char>>,
    BrunErrorView,
> {
    match tip_of(reply) {
        Ok(_) => Ok(before),
        Err(error) => Err(error),
    }
}

/// The mathematical value of what recording a reply returns.
pub open spec fn refresh_outcome(r: Result<Option<String>, BrunError>) -> Result<
    Option<Seq<char>>,
    BrunErrorView,
> {
    match r {
        Ok(previous) => Ok(previous.deep_view()),
        Err(error) => Err(error@),
    }
}

/// A host that serves the watched branch.
pub trait Remote: Sized {
    /// The tip observed last, if any was.
    spec fn observed(&self) -> Option<Seq<char>>;

    /// The request that asks for the tip of the branch.
    spec fn tip_request(&self) -> RequestView;

    /// A remote for the branch of a repository, with nothing observed yet.
    fn new(username: String, repo_name: String, branch: String, token: String) -> (remote: Self)
        ensures
            remote.observed() is None,
    ;

    /// The tip observed last, if any was.
    fn last_commit(&self) -> (tip: Option<&str>)
        ensures
            tip.deep_view() == self.observed(),
    ;

    /// The request to send before each [`Remote::refresh`].
    fn request(&self) -> (request: Request)
        ensures
            request@ == self.tip_request(),
    ;

    /// Records the tip that `reply` names and returns the one it displaces.
    /// Where the reply names none, nothing changes. After a success a tip
    /// is observed, and a tip, once observed, is never cleared.
    fn refresh(&mut self, reply: Reply) -> (r: Result<Option<String>, BrunError>)
        ensures
            refresh_outcome(r) == displaced_by(old(self).observed(), reply@),
            final(self).observed() == observed_after(old(self).observed(), reply@),
            final(self).tip_request() == old(self).tip_request(),
            r is Ok ==> final(self).observed() is Some,
            old(self).observed() is Some ==> final(self).observed() is Some,
    ;
}

} // verus!
