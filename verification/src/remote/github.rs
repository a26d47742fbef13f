//! The remote that asks the GitHub REST API for the commits of a branch.

use crate::error::BrunError;
use crate::remote::{tip, Remote, Reply, Request, RequestView};
use crate::repo::{RemoteRepo, RemoteRepoView};
use vstd::prelude::*;
use vstd::string::*;

verus! {

/// A branch of a repository on GitHub, the token to ask with, and the tip
/// observed last.
#[derive(Debug)]
pub struct Github {
    pub username: String,
    pub repo: String,
    pub branch: String,
    token: String,
    last_commit: Option<String>,
}

/// The mathematical value of a [`Github`].
pub struct GithubView {
    pub username: Seq<char>,
    pub repo: Seq<char>,
    pub branch: Seq<char>,
    pub token: Seq<char>,
    pub last_commit: Option<Seq<char>>,
}

/// The address that lists the newest commit of a branch.
pub open spec fn commits_url(username: Seq<char>, repo: Seq<char>, branch: Seq<char>) -> Seq<char> {
    "https://api.github.com/repos/"@ + username + "/"@ + repo + "/commits?sha="@ + branch
        + "&per_page=1"@
}

/// The headers that the API asks for: a user agent, the token as a bearer
/// credential, the media type and the API version.
pub open spec fn api_headers(token: Seq<char>) -> Seq<(Seq<char>, Seq<char>)> {
    seq![
        ("User-Agent"@, "curl/7.68.0"@),
        ("Authorization"@, "Bearer "@ + token),
        ("Accept"@, "application/vnd.github+json"@),
        ("X-GitHub-Api-Version"@, "2022-11-28"@),
    ]
}

impl GithubView {
    /// The request that asks for the tip of the branch.
    pub open spec fn tip_request(self) -> RequestView {
        RequestView {
            url: commits_url(self.username, self.repo, self.branch),
            headers: api_headers(self.token),
        }
    }
}

impl View for Github {
    type V = GithubView;

    closed spec fn view(&self) -> GithubView {
        GithubView {
            username: self.username@,
            repo: self.repo@,
            branch: self.branch@,
            token: self.token@,
            last_commit: self.last_commit.deep_view(),
        }
    }
}

impl GithubView {
    /// Where the branch lives.
    pub open spec fn coordinates(self) -> RemoteRepoView {
        RemoteRepoView { username: self.username, repo_name: self.repo, branch: self.branch }
    }
}

impl Github {
    /// Where the branch lives.
    pub fn coordinates(&self) -> (repo: RemoteRepo)
        ensures
            repo@ == self@.coordinates(),
    {
        RemoteRepo {
            username: self.username.clone(),
            repo_name: self.repo.clone(),
            branch: self.branch.clone(),
        }
    }
}

impl Remote for Github {
    open spec fn observed(&self) -> Option<Seq<char>> {
        self@.last_commit
    }

    open spec fn tip_request(&self) -> RequestView {
        self@.tip_request()
    }

    fn new(username: String, repo_name: String, branch: String, token: String) -> (remote: Self)
        ensures
            remote@ == (GithubView {
                username: username@,
                repo: repo_name@,
                branch: branch@,
                token: token@,
                last_commit: None,
            }),
    {
        Github { username, repo: repo_name, branch, token, last_commit: None }
    }

    fn last_commit(&self) -> (tip: Option<&str>) {
        match &self.last_commit {
            Some(sha) => Some(sha.as_str()),
            None => None,
        }
    }

    fn request(&self) -> (request: Request) {
        let mut url = String::from_str("https://api.github.com/repos/");
        url.append(self.username.as_str());
        url.append("/");
        url.append(self.repo.as_str());
        url.append("/commits?sha=");
        url.append(self.branch.as_str());
        url.append("&per_page=1");
        let mut bearer = String::from_str("Bearer ");
        bearer.append(self.token.as_str());
        let mut headers: Vec<(String, String)> = Vec::new();
        headers.push((String::from_str("User-Agent"), String::from_str("curl/7.68.0")));
        headers.push((String::from_str("Authorization"), bearer));
        headers.push((String::from_str("Accept"), String::from_str("application/vnd.github+json")));
        headers.push((String::from_str("X-GitHub-Api-Version"), String::from_str("2022-11-28")));
        assert(headers.deep_view() =~= api_headers(self.token@));
        Request { url, headers }
    }

    fn refresh(&mut self, reply: Reply) -> (r: Result<Option<String>, BrunError>)
        ensures
            final(self)@ == (GithubView {
                last_commit: final(self).observed(),
                ..old(self)@
            }),
    {
        match tip(reply) {
            Ok(sha) => {
                let mut displaced = Some(sha);
                std::mem::swap(&mut self.last_commit, &mut displaced);
                Ok(displaced)
            },
            Err(error) => Err(error),
        }
    }
}

} // verus!
