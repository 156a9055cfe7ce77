//! Forge values the stage rules read: pull requests, comments, reviews and
//! project board items.

use vstd::prelude::*;

verus! {

#[derive(Debug, Clone, PartialEq, Eq)]
pub struct GithubUser {
    pub login: String,
}

#[derive(Debug, Clone, PartialEq, Eq)]
pub struct GithubPullRequestRef {
    pub ref_name: String,
    pub sha: String,
}

#[derive(Debug, Clone, PartialEq, Eq)]
pub struct GithubPullRequest {
    pub number: u64,
    pub html_url: String,
    pub draft: bool,
    pub state: String,
    pub title: String,
    pub head: GithubPullRequestRef,
    pub base: GithubPullRequestRef,
    pub user: Option<GithubUser>,
    pub body: Option<String>,
}

#[derive(Debug, Clone, PartialEq, Eq)]
pub struct GithubIssueComment {
    pub id: u64,
    pub user: Option<GithubUser>,
    pub body: Option<String>,
    pub html_url: Option<String>,
}

#[derive(Debug, Clone, PartialEq, Eq)]
pub struct GithubPullRequestReview {
    pub id: u64,
    pub user: Option<GithubUser>,
    pub body: Option<String>,
    pub commit_id: String,
    pub state: String,
    pub html_url: Option<String>,
}

/// One inline comment of a pull-request review.
#[derive(Debug, Clone, PartialEq, Eq)]
pub struct GithubPullRequestReviewComment {
    pub path: String,
    pub line: u32,
    pub side: String,
    pub start_line: Option<u32>,
    pub start_side: Option<String>,
    pub body: String,
}

/// An issue's card on the project board.
#[derive(Debug, Clone, PartialEq, Eq)]
pub struct ProjectItem {
    pub issue_number: u64,
    pub repository: Option<String>,
    pub status: Option<String>,
}

/// The login of an author, empty when the forge gave none.
pub open spec fn author_of(user: Option<GithubUser>) -> Seq<char> {
    match user {
        Some(u) => u.login@,
        None => Seq::empty(),
    }
}

pub fn author_login(user: &Option<GithubUser>) -> (res: &str)
    ensures
        res@ == author_of(*user),
{
    match user {
        Some(u) => u.login.as_str(),
        None => {
            proof {
                reveal_strlit("");
            }
            ""
        },
    }
}

} // verus!
