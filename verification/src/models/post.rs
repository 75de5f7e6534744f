//! Request bodies sent to the server.

use vstd::prelude::*;

verus! {

/// The body that creates or updates a project.
#[derive(Debug, Clone, PartialEq, Eq)]
pub struct Project {
    pub key: String,
    pub name: String,
    pub description: Option<String>,
    pub avatar: Option<String>,
}

/// A user named in a request body.
#[derive(Debug, Clone, PartialEq, Eq)]
pub struct User {
    pub name: String,
}

/// The project of a pull request ref in a request body.
#[derive(Debug, Clone, PartialEq, Eq)]
pub struct PullRequestRefRepoProject {
    pub key: String,
}

/// The repository of a pull request ref in a request body.
#[derive(Debug, Clone, PartialEq, Eq)]
pub struct PullRequestRefRepo {
    pub slug: String,
    pub name: Option<String>,
    pub project: PullRequestRefRepoProject,
}

/// One side of a pull request in a request body.
#[derive(Debug, Clone, PartialEq, Eq)]
pub struct PullRequestRef {
    pub id: String,
    pub repository: PullRequestRefRepo,
}

/// The body that opens a pull request.
#[derive(Debug, Clone, PartialEq, Eq)]
pub struct PullRequest {
    pub title: String,
    pub description: Option<String>,
    pub from_ref: PullRequestRef,
    pub to_ref: PullRequestRef,
    pub close_source_branch: bool,
    pub reviewers: Vec<User>,
}

} // verus!
