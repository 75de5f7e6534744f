//! The pull requests branch of the hierarchy.

use crate::uri_builders::diff::DiffUriBuilder;
use crate::uri_builders::repository::WithRepositoryUriBuilder;
use crate::uri_builders::{
    spec_dec_str, spec_seg, u64_to_string, BuildError, TerminalUriBuilder, UriBuilder,
};
use vstd::prelude::*;
use vstd::string::StringExecFns;

verus! {

/// The pull requests of one repository.
#[derive(Debug, Clone, Copy)]
pub struct PullRequestUriBuilder<'r> {
    builder: WithRepositoryUriBuilder<'r>,
}

impl<'r> PullRequestUriBuilder<'r> {
    /// The repository stage this stage grew from.
    pub closed spec fn spec_base(&self) -> WithRepositoryUriBuilder<'r> {
        self.builder
    }

    pub fn new(builder: WithRepositoryUriBuilder<'r>) -> (r: Self)
        ensures
            r.wf() == builder.wf(),
            r.spec_uri() == spec_seg(builder.spec_uri(), "pull-requests"@),
    {
        PullRequestUriBuilder { builder }
    }

    /// Selects one pull request by its numeric id.
    pub fn pull_request(self, pull_request_id: u64) -> (r: WithPullRequestUriBuilder<'r>)
        ensures
            r.wf() == self.wf(),
            r.spec_uri() == spec_seg(self.spec_uri(), spec_dec_str(pull_request_id as nat)),
    {
        WithPullRequestUriBuilder::new(self, pull_request_id)
    }
}

impl<'r> UriBuilder for PullRequestUriBuilder<'r> {
    open spec fn wf(&self) -> bool {
        self.spec_base().wf()
    }

    open spec fn spec_uri(&self) -> Seq<char> {
        spec_seg(self.spec_base().spec_uri(), "pull-requests"@)
    }

    fn build(&self) -> (r: Result<String, BuildError>) {
        match self.builder.build() {
            Result::Ok(base) => Result::Ok(base.concat("/").concat("pull-requests")),
            Result::Err(e) => Result::Err(e),
        }
    }
}

/// One pull request, selected by its numeric id.
#[derive(Debug, Clone, Copy)]
pub struct WithPullRequestUriBuilder<'r> {
    builder: PullRequestUriBuilder<'r>,
    id: u64,
}

impl<'r> WithPullRequestUriBuilder<'r> {
    /// The pull requests stage this stage grew from.
    pub closed spec fn spec_base(&self) -> PullRequestUriBuilder<'r> {
        self.builder
    }

    /// The pull request id rendered by this stage.
    pub closed spec fn spec_id(&self) -> u64 {
        self.id
    }

    pub fn new(builder: PullRequestUriBuilder<'r>, id: u64) -> (r: Self)
        ensures
            r.spec_base() == builder,
            r.spec_id() == id,
    {
        WithPullRequestUriBuilder { builder, id }
    }

    /// Selects the pull request's diff.
    pub fn diff(self) -> (r: DiffUriBuilder<Self>)
        ensures
            r.wf() == self.wf(),
            r.spec_uri() == spec_seg(self.spec_uri(), "diff"@),
    {
        DiffUriBuilder::new(self)
    }

    /// Selects the pull request's comments.
    pub fn comments(self) -> (r: PullRequestCommentUriBuilder<'r>)
        ensures
            r.wf() == self.wf(),
            r.spec_uri() == spec_seg(self.spec_uri(), "comments"@),
    {
        PullRequestCommentUriBuilder::new(self)
    }

    /// Selects the pull request's tasks.
    pub fn tasks(self) -> (r: PullRequestTasksUriBuilder<'r>)
        ensures
            r.wf() == self.wf(),
            r.spec_uri() == spec_seg(self.spec_uri(), "tasks"@),
    {
        PullRequestTasksUriBuilder::new(self)
    }

    /// Selects the pull request's activities.
    pub fn activities(self) -> (r: TerminalUriBuilder<Self>)
        ensures
            r.wf() == self.wf(),
            r.spec_uri() == spec_seg(self.spec_uri(), "activities"@),
    {
        TerminalUriBuilder::new(self, "activities".to_owned())
    }

    /// Declines the pull request.
    pub fn decline(self) -> (r: TerminalUriBuilder<Self>)
        ensures
            r.wf() == self.wf(),
            r.spec_uri() == spec_seg(self.spec_uri(), "decline"@),
    {
        TerminalUriBuilder::new(self, "decline".to_owned())
    }

    /// Merges the pull request.
    pub fn merge(self) -> (r: TerminalUriBuilder<Self>)
        ensures
            r.wf() == self.wf(),
            r.spec_uri() == spec_seg(self.spec_uri(), "merge"@),
    {
        TerminalUriBuilder::new(self, "merge".to_owned())
    }

    /// Reopens the pull request.
    pub fn reopen(self) -> (r: TerminalUriBuilder<Self>)
        ensures
            r.wf() == self.wf(),
            r.spec_uri() == spec_seg(self.spec_uri(), "reopen"@),
    {
        TerminalUriBuilder::new(self, "reopen".to_owned())
    }

    /// Approves the pull request.
    pub fn approve(self) -> (r: TerminalUriBuilder<Self>)
        ensures
            r.wf() == self.wf(),
            r.spec_uri() == spec_seg(self.spec_uri(), "approve"@),
    {
        TerminalUriBuilder::new(self, "approve".to_owned())
    }

    /// Selects the pull request's changes.
    pub fn changes(self) -> (r: TerminalUriBuilder<Self>)
        ensures
            r.wf() == self.wf(),
            r.spec_uri() == spec_seg(self.spec_uri(), "changes"@),
    {
        TerminalUriBuilder::new(self, "changes".to_owned())
    }

    /// Selects the pull request's commits.
    pub fn commits(self) -> (r: TerminalUriBuilder<Self>)
        ensures
            r.wf() == self.wf(),
            r.spec_uri() == spec_seg(self.spec_uri(), "commits"@),
    {
        TerminalUriBuilder::new(self, "commits".to_owned())
    }

    /// Selects the pull request's participants.
    pub fn participants(self) -> (r: TerminalUriBuilder<Self>)
        ensures
            r.wf() == self.wf(),
            r.spec_uri() == spec_seg(self.spec_uri(), "participants"@),
    {
        TerminalUriBuilder::new(self, "participants".to_owned())
    }

    /// Watches the pull request.
    pub fn watch(self) -> (r: TerminalUriBuilder<Self>)
        ensures
            r.wf() == self.wf(),
            r.spec_uri() == spec_seg(self.spec_uri(), "watch"@),
    {
        TerminalUriBuilder::new(self, "watch".to_owned())
    }
}

impl<'r> UriBuilder for WithPullRequestUriBuilder<'r> {
    open spec fn wf(&self) -> bool {
        self.spec_base().wf()
    }

    open spec fn spec_uri(&self) -> Seq<char> {
        spec_seg(self.spec_base().spec_uri(), spec_dec_str(self.spec_id() as nat))
    }

    fn build(&self) -> (r: Result<String, BuildError>) {
        match self.builder.build() {
            Result::Ok(base) => {
                let rendered = u64_to_string(self.id);
                Result::Ok(base.concat("/").concat(rendered.as_str()))
            },
            Result::Err(e) => Result::Err(e),
        }
    }
}

/// The comments on one pull request.
#[derive(Debug, Clone, Copy)]
pub struct PullRequestCommentUriBuilder<'r> {
    builder: WithPullRequestUriBuilder<'r>,
}

impl<'r> PullRequestCommentUriBuilder<'r> {
    /// The pull request stage this stage grew from.
    pub closed spec fn spec_base(&self) -> WithPullRequestUriBuilder<'r> {
        self.builder
    }

    pub fn new(builder: WithPullRequestUriBuilder<'r>) -> (r: Self)
        ensures
            r.wf() == builder.wf(),
            r.spec_uri() == spec_seg(builder.spec_uri(), "comments"@),
    {
        PullRequestCommentUriBuilder { builder }
    }

    /// Selects one comment by its numeric id.
    pub fn comment(self, comment_id: u64) -> (r: WithPullRequestCommentUriBuilder<'r>)
        ensures
            r.wf() == self.wf(),
            r.spec_uri() == spec_seg(self.spec_uri(), spec_dec_str(comment_id as nat)),
    {
        WithPullRequestCommentUriBuilder::new(self, comment_id)
    }
}

impl<'r> UriBuilder for PullRequestCommentUriBuilder<'r> {
    open spec fn wf(&self) -> bool {
        self.spec_base().wf()
    }

    open spec fn spec_uri(&self) -> Seq<char> {
        spec_seg(self.spec_base().spec_uri(), "comments"@)
    }

    fn build(&self) -> (r: Result<String, BuildError>) {
        match self.builder.build() {
            Result::Ok(base) => Result::Ok(base.concat("/").concat("comments")),
            Result::Err(e) => Result::Err(e),
        }
    }
}

/// One comment on a pull request, selected by its numeric id.
#[derive(Debug, Clone, Copy)]
pub struct WithPullRequestCommentUriBuilder<'r> {
    builder: PullRequestCommentUriBuilder<'r>,
    comment_id: u64,
}

impl<'r> WithPullRequestCommentUriBuilder<'r> {
    /// The comments stage this stage grew from.
    pub closed spec fn spec_base(&self) -> PullRequestCommentUriBuilder<'r> {
        self.builder
    }

    /// The comment id rendered by this stage.
    pub closed spec fn spec_id(&self) -> u64 {
        self.comment_id
    }

    pub fn new(builder: PullRequestCommentUriBuilder<'r>, comment_id: u64) -> (r: Self)
        ensures
            r.spec_base() == builder,
            r.spec_id() == comment_id,
    {
        WithPullRequestCommentUriBuilder { builder, comment_id }
    }
}

impl<'r> UriBuilder for WithPullRequestCommentUriBuilder<'r> {
    open spec fn wf(&self) -> bool {
        self.spec_base().wf()
    }

    open spec fn spec_uri(&self) -> Seq<char> {
        spec_seg(self.spec_base().spec_uri(), spec_dec_str(self.spec_id() as nat))
    }

    fn build(&self) -> (r: Result<String, BuildError>) {
        match self.builder.build() {
            Result::Ok(base) => {
                let rendered = u64_to_string(self.comment_id);
                Result::Ok(base.concat("/").concat(rendered.as_str()))
            },
            Result::Err(e) => Result::Err(e),
        }
    }
}

/// The tasks attached to one pull request.
#[derive(Debug, Clone, Copy)]
pub struct PullRequestTasksUriBuilder<'r> {
    builder: WithPullRequestUriBuilder<'r>,
}

impl<'r> PullRequestTasksUriBuilder<'r> {
    /// The pull request stage this stage grew from.
    pub closed spec fn spec_base(&self) -> WithPullRequestUriBuilder<'r> {
        self.builder
    }

    pub fn new(builder: WithPullRequestUriBuilder<'r>) -> (r: Self)
        ensures
            r.wf() == builder.wf(),
            r.spec_uri() == spec_seg(builder.spec_uri(), "tasks"@),
    {
        PullRequestTasksUriBuilder { builder }
    }

    /// Counts the pull request's tasks.
    pub fn count(self) -> (r: TerminalUriBuilder<Self>)
        ensures
            r.wf() == self.wf(),
            r.spec_uri() == spec_seg(self.spec_uri(), "count"@),
    {
        TerminalUriBuilder::new(self, "count".to_owned())
    }
}

impl<'r> UriBuilder for PullRequestTasksUriBuilder<'r> {
    open spec fn wf(&self) -> bool {
        self.spec_base().wf()
    }

    open spec fn spec_uri(&self) -> Seq<char> {
        spec_seg(self.spec_base().spec_uri(), "tasks"@)
    }

    fn build(&self) -> (r: Result<String, BuildError>) {
        match self.builder.build() {
            Result::Ok(base) => Result::Ok(base.concat("/").concat("tasks")),
            Result::Err(e) => Result::Err(e),
        }
    }
}

} // verus!
