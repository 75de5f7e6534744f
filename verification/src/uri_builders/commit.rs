//! The commits branch of the hierarchy.

use crate::uri_builders::diff::DiffUriBuilder;
use crate::uri_builders::repository::WithRepositoryUriBuilder;
use crate::uri_builders::{
    spec_dec_str, spec_seg, u64_to_string, BuildError, TerminalUriBuilder, UriBuilder,
};
use vstd::prelude::*;
use vstd::string::StringExecFns;

verus! {

/// The commits of one repository.
#[derive(Debug, Clone, Copy)]
pub struct CommitUriBuilder<'r> {
    builder: WithRepositoryUriBuilder<'r>,
}

impl<'r> CommitUriBuilder<'r> {
    /// The repository stage this stage grew from.
    pub closed spec fn spec_base(&self) -> WithRepositoryUriBuilder<'r> {
        self.builder
    }

    pub fn new(builder: WithRepositoryUriBuilder<'r>) -> (r: Self)
        ensures
            r.wf() == builder.wf(),
            r.spec_uri() == spec_seg(builder.spec_uri(), "commits"@),
    {
        CommitUriBuilder { builder }
    }

    /// Selects one commit by its id.
    pub fn commit(self, commit_id: &'r str) -> (r: WithCommitUriBuilder<'r>)
        ensures
            r.wf() == self.wf(),
            r.spec_uri() == spec_seg(self.spec_uri(), commit_id@),
    {
        WithCommitUriBuilder::new(self, commit_id)
    }
}

impl<'r> UriBuilder for CommitUriBuilder<'r> {
    open spec fn wf(&self) -> bool {
        self.spec_base().wf()
    }

    open spec fn spec_uri(&self) -> Seq<char> {
        spec_seg(self.spec_base().spec_uri(), "commits"@)
    }

    fn build(&self) -> (r: Result<String, BuildError>) {
        match self.builder.build() {
            Result::Ok(base) => Result::Ok(base.concat("/").concat("commits")),
            Result::Err(e) => Result::Err(e),
        }
    }
}

/// One commit, selected by its id.
#[derive(Debug, Clone, Copy)]
pub struct WithCommitUriBuilder<'r> {
    builder: CommitUriBuilder<'r>,
    commit_id: &'r str,
}

impl<'r> WithCommitUriBuilder<'r> {
    /// The commits stage this stage grew from.
    pub closed spec fn spec_base(&self) -> CommitUriBuilder<'r> {
        self.builder
    }

    /// The commit id rendered by this stage.
    pub closed spec fn spec_commit(&self) -> Seq<char> {
        self.commit_id@
    }

    pub fn new(builder: CommitUriBuilder<'r>, commit_id: &'r str) -> (r: Self)
        ensures
            r.spec_base() == builder,
            r.spec_commit() == commit_id@,
    {
        WithCommitUriBuilder { builder, commit_id }
    }

    /// Selects the commit's diff.
    pub fn diff(self) -> (r: DiffUriBuilder<Self>)
        ensures
            r.wf() == self.wf(),
            r.spec_uri() == spec_seg(self.spec_uri(), "diff"@),
    {
        DiffUriBuilder::new(self)
    }

    /// Selects the commit's comments.
    pub fn comments(self) -> (r: CommitCommentUriBuilder<'r>)
        ensures
            r.wf() == self.wf(),
            r.spec_uri() == spec_seg(self.spec_uri(), "comments"@),
    {
        CommitCommentUriBuilder::new(self)
    }

    /// Selects the commit's changes.
    pub fn changes(self) -> (r: TerminalUriBuilder<Self>)
        ensures
            r.wf() == self.wf(),
            r.spec_uri() == spec_seg(self.spec_uri(), "changes"@),
    {
        TerminalUriBuilder::new(self, "changes".to_owned())
    }

    /// Watches the commit.
    pub fn watch(self) -> (r: TerminalUriBuilder<Self>)
        ensures
            r.wf() == self.wf(),
            r.spec_uri() == spec_seg(self.spec_uri(), "watch"@),
    {
        TerminalUriBuilder::new(self, "watch".to_owned())
    }
}

impl<'r> UriBuilder for WithCommitUriBuilder<'r> {
    open spec fn wf(&self) -> bool {
        self.spec_base().wf()
    }

    open spec fn spec_uri(&self) -> Seq<char> {
        spec_seg(self.spec_base().spec_uri(), self.spec_commit())
    }

    fn build(&self) -> (r: Result<String, BuildError>) {
        match self.builder.build() {
            Result::Ok(base) => Result::Ok(base.concat("/").concat(self.commit_id)),
            Result::Err(e) => Result::Err(e),
        }
    }
}

/// The comments on one commit.
#[derive(Debug, Clone, Copy)]
pub struct CommitCommentUriBuilder<'r> {
    builder: WithCommitUriBuilder<'r>,
}

impl<'r> CommitCommentUriBuilder<'r> {
    /// The commit stage this stage grew from.
    pub closed spec fn spec_base(&self) -> WithCommitUriBuilder<'r> {
        self.builder
    }

    pub fn new(builder: WithCommitUriBuilder<'r>) -> (r: Self)
        ensures
            r.wf() == builder.wf(),
            r.spec_uri() == spec_seg(builder.spec_uri(), "comments"@),
    {
        CommitCommentUriBuilder { builder }
    }

    /// Selects one comment by its numeric id.
    pub fn comment(self, comment_id: u64) -> (r: TerminalUriBuilder<Self>)
        ensures
            r.wf() == self.wf(),
            r.spec_uri() == spec_seg(self.spec_uri(), spec_dec_str(comment_id as nat)),
    {
        let rendered = u64_to_string(comment_id);
        TerminalUriBuilder::new(self, rendered)
    }
}

impl<'r> UriBuilder for CommitCommentUriBuilder<'r> {
    open spec fn wf(&self) -> bool {
        self.spec_base().wf()
    }

    open spec fn spec_uri(&self) -> Seq<char> {
        spec_seg(self.spec_base().spec_uri(), "comments"@)
    }

    fn build(&self) -> (r: Result<String, BuildError>) {
        match self.builder.build() {
            Result::Ok(base) => Result::Ok(base.concat("/").concat("comments")),
            Result::Err(e) => Result::Err(e),
        }
    }
}

} // verus!
