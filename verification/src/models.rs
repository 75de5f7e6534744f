//! Domain entities delivered by the server, plus the structured error
//! payload it attaches to failed requests.

use crate::uri_builders::{spec_dec_str, u64_to_string};
use vstd::prelude::*;
use vstd::string::StringExecFns;

pub mod post;

verus! {

/// One entry of the server's error payload.
#[derive(Debug, Clone, PartialEq, Eq)]
pub struct BitbucketError {
    pub context: Option<String>,
    pub message: String,
    pub exception_name: Option<String>,
}

/// The server's error payload: one or more entries under `errors`.
#[derive(Debug, Clone, PartialEq, Eq)]
pub struct BitbucketErrors {
    pub errors: Vec<BitbucketError>,
}

/// The heading of the readable rendering of an error payload.
pub open spec fn spec_errors_heading() -> Seq<char> {
    "The following errors where encountered:\n"@
}

/// The numbered lines of the readable rendering, from entry `i` on: each
/// entry is indented, numbered from one, and holds its message.
pub open spec fn spec_errors_lines(errors: Seq<BitbucketError>, i: int) -> Seq<char>
    recommends
        0 <= i <= errors.len(),
    decreases errors.len() - i,
{
    if i < 0 || i >= errors.len() {
        Seq::<char>::empty()
    } else {
        "    "@ + spec_dec_str((i + 1) as nat) + ". "@ + errors[i].message@ + "\n"@
            + spec_errors_lines(errors, i + 1)
    }
}

impl BitbucketErrors {
    /// Renders the payload as one readable message: a heading followed by
    /// one numbered line per entry.
    pub fn to_message_string(&self) -> (r: String)
        ensures
            r@ == spec_errors_heading() + spec_errors_lines(self.errors@, 0),
    {
        let mut s = "The following errors where encountered:\n".to_owned();
        let n = self.errors.len();
        let mut i: usize = 0;
        while i < n
            invariant
                0 <= i <= n,
                n == self.errors@.len(),
                s@ + spec_errors_lines(self.errors@, i as int) == spec_errors_heading()
                    + spec_errors_lines(self.errors@, 0),
            decreases n - i,
        {
            s.append("    ");
            let rendered = u64_to_string((i + 1) as u64);
            s.append(rendered.as_str());
            s.append(". ");
            s.append(self.errors[i].message.as_str());
            s.append("\n");
            i = i + 1;
        }
        proof {
            assert(spec_errors_lines(self.errors@, n as int) =~= Seq::<char>::empty());
            assert(s@ + Seq::<char>::empty() =~= s@);
        }
        s
    }
}

/// A link advertised by the server.
#[derive(Debug, Clone, PartialEq, Eq)]
pub struct Link {
    pub url: String,
    pub rel: String,
}

/// One element of a self link.
#[derive(Debug, Clone, PartialEq, Eq)]
pub struct LinkPart {
    pub href: String,
}

/// The self links attached to an entity.
#[derive(Debug, Clone, PartialEq, Eq)]
pub struct Links {
    pub parts: Vec<LinkPart>,
}

/// One page of a larger result set, with the cursors needed to fetch the
/// next page.
#[derive(Debug, Clone, PartialEq, Eq)]
pub struct PagedResponse<T> {
    pub size: u32,
    pub limit: u32,
    pub is_last_page: bool,
    pub values: Vec<T>,
    pub start: u32,
    pub filter: u32,
    pub next_page_start: Option<u32>,
}

/// A project on the server.
#[derive(Debug, Clone, PartialEq, Eq)]
pub struct Project {
    pub key: String,
    pub id: u32,
    pub name: String,
    pub description: Option<String>,
    pub public: bool,
    pub project_type: String,
    pub link: Option<Link>,
    pub links: Links,
}

/// One clone link of a repository.
#[derive(Debug, Clone, PartialEq, Eq)]
pub struct RepositoryCloneLinkPart {
    pub href: String,
    pub name: String,
}

/// The links attached to a repository.
#[derive(Debug, Clone, PartialEq, Eq)]
pub struct RepositoryLinks {
    pub clone: Vec<RepositoryCloneLinkPart>,
    pub parts: Links,
}

/// A repository of a project.
#[derive(Debug, Clone, PartialEq, Eq)]
pub struct Repository {
    pub slug: String,
    pub id: u32,
    pub name: String,
    pub scm: String,
    pub state: String,
    pub status: String,
    pub forkable: bool,
    pub project: Project,
    pub public: bool,
    pub clone_url: Option<String>,
    pub link: Option<Link>,
    pub links: RepositoryLinks,
}

/// A branch of a repository.
#[derive(Debug, Clone, PartialEq, Eq)]
pub struct Branch {
    pub id: String,
    pub display_id: String,
    pub latest_changeset: String,
    pub latest_commit: String,
    pub is_default: bool,
}

/// The author of a commit.
#[derive(Debug, Clone, PartialEq, Eq)]
pub struct Author {
    pub name: String,
    pub email: String,
}

/// A parent of a commit.
#[derive(Debug, Clone, PartialEq, Eq)]
pub struct ParentCommit {
    pub id: String,
    pub display_id: String,
}

/// A commit of a repository.
#[derive(Debug, Clone, PartialEq, Eq)]
pub struct Commit {
    pub id: String,
    pub display_id: String,
    pub author: Author,
    pub author_timestamp: u64,
    pub message: String,
    pub parents: Vec<ParentCommit>,
}

/// A user known to the server.
#[derive(Debug, Clone, PartialEq, Eq)]
pub struct User {
    pub name: String,
    pub email: String,
    pub id: u64,
    pub display_name: String,
    pub active: bool,
    pub slug: String,
    pub user_type: String,
}

/// The project a pull request ref lives in.
#[derive(Debug, Clone, PartialEq, Eq)]
pub struct PullRequestRefRepoProject {
    pub key: String,
}

/// The repository a pull request ref lives in.
#[derive(Debug, Clone, PartialEq, Eq)]
pub struct PullRequestRefRepo {
    pub slug: String,
    pub name: Option<String>,
    pub project: PullRequestRefRepoProject,
}

/// One side of a pull request.
#[derive(Debug, Clone, PartialEq, Eq)]
pub struct PullRequestRef {
    pub id: String,
    pub repository: PullRequestRefRepo,
}

/// A participant of a pull request.
#[derive(Debug, Clone, PartialEq, Eq)]
pub struct PullRequestMember {
    pub user: User,
    pub role: String,
    pub approved: bool,
}

/// A pull request of a repository.
#[derive(Debug, Clone, PartialEq, Eq)]
pub struct PullRequest {
    pub id: u64,
    pub version: u32,
    pub title: String,
    pub description: Option<String>,
    pub state: String,
    pub open: bool,
    pub closed: bool,
    pub date_created: u64,
    pub date_updated: u64,
    pub from_ref: PullRequestRef,
    pub to_ref: PullRequestRef,
    pub locked: bool,
    pub author: PullRequestMember,
    pub reviewers: Vec<PullRequestMember>,
    pub participants: Vec<PullRequestMember>,
    pub link: Option<Link>,
    pub links: Links,
}

/// A tag of a repository.
#[derive(Debug, Clone, PartialEq, Eq)]
pub struct Tag {
    pub id: String,
    pub display_id: String,
    pub latest_changeset: String,
    pub latest_commit: String,
    pub hash: String,
}

/// The server's build information.
#[derive(Debug, Clone, PartialEq, Eq)]
pub struct ApplicationProperties {
    pub version: String,
    pub build_number: String,
    pub build_date: String,
    pub name: String,
}

/// The state filter applied when pull requests are listed.
#[derive(Debug, Clone, Copy)]
pub enum PullRequestState {
    ALL,
    OPEN,
    MERGED,
    DECLINED,
}

impl PullRequestState {
    /// What the state renders to in the query string.
    pub open spec fn spec_str(&self) -> Seq<char> {
        match self {
            PullRequestState::ALL => "ALL"@,
            PullRequestState::OPEN => "OPEN"@,
            PullRequestState::MERGED => "MERGED"@,
            PullRequestState::DECLINED => "DECLINED"@,
        }
    }

    pub fn as_str(&self) -> (r: &'static str)
        ensures
            r@ == self.spec_str(),
    {
        match self {
            PullRequestState::ALL => "ALL",
            PullRequestState::OPEN => "OPEN",
            PullRequestState::MERGED => "MERGED",
            PullRequestState::DECLINED => "DECLINED",
        }
    }
}

} // verus!
