//! The repositories branch of the hierarchy.

use crate::uri_builders::branch::BranchUriBuilder;
use crate::uri_builders::browse::BrowseUriBuilder;
use crate::uri_builders::commit::CommitUriBuilder;
use crate::uri_builders::diff::DiffUriBuilder;
use crate::uri_builders::file::FileUriBuilder;
use crate::uri_builders::permission::PermissionUriBuilder;
use crate::uri_builders::project::WithProjectUriBuilder;
use crate::uri_builders::pull_request::PullRequestUriBuilder;
use crate::uri_builders::{spec_seg, BuildError, TerminalUriBuilder, UriBuilder};
use vstd::prelude::*;
use vstd::string::StringExecFns;

verus! {

/// The repositories of one project.
#[derive(Debug, Clone, Copy)]
pub struct RepositoryUriBuilder<'r> {
    builder: WithProjectUriBuilder<'r>,
}

impl<'r> RepositoryUriBuilder<'r> {
    /// The project stage this stage grew from.
    pub closed spec fn spec_base(&self) -> WithProjectUriBuilder<'r> {
        self.builder
    }

    pub fn new(builder: WithProjectUriBuilder<'r>) -> (r: Self)
        ensures
            r.wf() == builder.wf(),
            r.spec_uri() == spec_seg(builder.spec_uri(), "repos"@),
    {
        RepositoryUriBuilder { builder }
    }

    /// Selects one repository by its slug.
    pub fn repository(self, repo: &'r str) -> (r: WithRepositoryUriBuilder<'r>)
        ensures
            r.wf() == self.wf(),
            r.spec_uri() == spec_seg(self.spec_uri(), repo@),
    {
        WithRepositoryUriBuilder::new(self, repo)
    }
}

impl<'r> UriBuilder for RepositoryUriBuilder<'r> {
    open spec fn wf(&self) -> bool {
        self.spec_base().wf()
    }

    open spec fn spec_uri(&self) -> Seq<char> {
        spec_seg(self.spec_base().spec_uri(), "repos"@)
    }

    fn build(&self) -> (r: Result<String, BuildError>) {
        match self.builder.build() {
            Result::Ok(base) => Result::Ok(base.concat("/").concat("repos")),
            Result::Err(e) => Result::Err(e),
        }
    }
}

/// One repository, selected by its slug.
#[derive(Debug, Clone, Copy)]
pub struct WithRepositoryUriBuilder<'r> {
    builder: RepositoryUriBuilder<'r>,
    repo: &'r str,
}

impl<'r> WithRepositoryUriBuilder<'r> {
    /// The repositories stage this stage grew from.
    pub closed spec fn spec_base(&self) -> RepositoryUriBuilder<'r> {
        self.builder
    }

    /// The repository slug rendered by this stage.
    pub closed spec fn spec_repo(&self) -> Seq<char> {
        self.repo@
    }

    pub fn new(builder: RepositoryUriBuilder<'r>, repo: &'r str) -> (r: Self)
        ensures
            r.spec_base() == builder,
            r.spec_repo() == repo@,
    {
        WithRepositoryUriBuilder { builder, repo }
    }

    /// Selects the repository's forks.
    pub fn forks(self) -> (r: TerminalUriBuilder<Self>)
        ensures
            r.wf() == self.wf(),
            r.spec_uri() == spec_seg(self.spec_uri(), "forks"@),
    {
        TerminalUriBuilder::new(self, "forks".to_owned())
    }

    /// Recreates the repository.
    pub fn recreate(self) -> (r: TerminalUriBuilder<Self>)
        ensures
            r.wf() == self.wf(),
            r.spec_uri() == spec_seg(self.spec_uri(), "recreate"@),
    {
        TerminalUriBuilder::new(self, "recreate".to_owned())
    }

    /// Selects the repositories related to this one.
    pub fn related(self) -> (r: TerminalUriBuilder<Self>)
        ensures
            r.wf() == self.wf(),
            r.spec_uri() == spec_seg(self.spec_uri(), "related"@),
    {
        TerminalUriBuilder::new(self, "related".to_owned())
    }

    /// Selects the repository's changes.
    pub fn changes(self) -> (r: TerminalUriBuilder<Self>)
        ensures
            r.wf() == self.wf(),
            r.spec_uri() == spec_seg(self.spec_uri(), "changes"@),
    {
        TerminalUriBuilder::new(self, "changes".to_owned())
    }

    /// Selects the repository's tags.
    pub fn tags(self) -> (r: TerminalUriBuilder<Self>)
        ensures
            r.wf() == self.wf(),
            r.spec_uri() == spec_seg(self.spec_uri(), "tags"@),
    {
        TerminalUriBuilder::new(self, "tags".to_owned())
    }

    /// Selects the repository's branches.
    pub fn branches(self) -> (r: BranchUriBuilder<'r>)
        ensures
            r.wf() == self.wf(),
            r.spec_uri() == spec_seg(self.spec_uri(), "branches"@),
    {
        BranchUriBuilder::new(self)
    }

    /// Selects the repository's commits.
    pub fn commits(self) -> (r: CommitUriBuilder<'r>)
        ensures
            r.wf() == self.wf(),
            r.spec_uri() == spec_seg(self.spec_uri(), "commits"@),
    {
        CommitUriBuilder::new(self)
    }

    /// Selects the repository's diff.
    pub fn diff(self) -> (r: DiffUriBuilder<Self>)
        ensures
            r.wf() == self.wf(),
            r.spec_uri() == spec_seg(self.spec_uri(), "diff"@),
    {
        DiffUriBuilder::new(self)
    }

    /// Browses the repository's tree.
    pub fn browse(self) -> (r: BrowseUriBuilder<Self>)
        ensures
            r.wf() == self.wf(),
            r.spec_uri() == spec_seg(self.spec_uri(), "browse"@),
    {
        BrowseUriBuilder::new(self)
    }

    /// Selects the repository's files.
    pub fn files(self) -> (r: FileUriBuilder<Self>)
        ensures
            r.wf() == self.wf(),
            r.spec_uri() == spec_seg(self.spec_uri(), "files"@),
    {
        FileUriBuilder::new(self)
    }

    /// Selects the repository's pull requests.
    pub fn pull_requests(self) -> (r: PullRequestUriBuilder<'r>)
        ensures
            r.wf() == self.wf(),
            r.spec_uri() == spec_seg(self.spec_uri(), "pull-requests"@),
    {
        PullRequestUriBuilder::new(self)
    }

    /// Selects the repository's permissions.
    pub fn permissions(self) -> (r: PermissionUriBuilder<Self>)
        ensures
            r.wf() == self.wf(),
            r.spec_uri() == spec_seg(self.spec_uri(), "permissions"@),
    {
        PermissionUriBuilder::new(self)
    }

    /// Compares refs within the repository.
    pub fn compare(self) -> (r: CompareRepositoryUriBuilder<'r>)
        ensures
            r.wf() == self.wf(),
            r.spec_uri() == spec_seg(self.spec_uri(), "compare"@),
    {
        CompareRepositoryUriBuilder::new(self)
    }

    /// Selects the repository's settings.
    pub fn settings(self) -> (r: RepositorySettingsUriBuilder<'r>)
        ensures
            r.wf() == self.wf(),
            r.spec_uri() == spec_seg(self.spec_uri(), "settings"@),
    {
        RepositorySettingsUriBuilder::new(self)
    }
}

impl<'r> UriBuilder for WithRepositoryUriBuilder<'r> {
    open spec fn wf(&self) -> bool {
        self.spec_base().wf()
    }

    open spec fn spec_uri(&self) -> Seq<char> {
        spec_seg(self.spec_base().spec_uri(), self.spec_repo())
    }

    fn build(&self) -> (r: Result<String, BuildError>) {
        match self.builder.build() {
            Result::Ok(base) => Result::Ok(base.concat("/").concat(self.repo)),
            Result::Err(e) => Result::Err(e),
        }
    }
}

/// A comparison between two refs of a repository.
#[derive(Debug, Clone, Copy)]
pub struct CompareRepositoryUriBuilder<'r> {
    builder: WithRepositoryUriBuilder<'r>,
}

impl<'r> CompareRepositoryUriBuilder<'r> {
    /// The repository stage this stage grew from.
    pub closed spec fn spec_base(&self) -> WithRepositoryUriBuilder<'r> {
        self.builder
    }

    pub fn new(builder: WithRepositoryUriBuilder<'r>) -> (r: Self)
        ensures
            r.wf() == builder.wf(),
            r.spec_uri() == spec_seg(builder.spec_uri(), "compare"@),
    {
        CompareRepositoryUriBuilder { builder }
    }

    /// Selects the changes between the compared refs.
    pub fn changes(self) -> (r: TerminalUriBuilder<Self>)
        ensures
            r.wf() == self.wf(),
            r.spec_uri() == spec_seg(self.spec_uri(), "changes"@),
    {
        TerminalUriBuilder::new(self, "changes".to_owned())
    }

    /// Selects the commits between the compared refs.
    pub fn commits(self) -> (r: TerminalUriBuilder<Self>)
        ensures
            r.wf() == self.wf(),
            r.spec_uri() == spec_seg(self.spec_uri(), "commits"@),
    {
        TerminalUriBuilder::new(self, "commits".to_owned())
    }

    /// Selects the diff between the compared refs.
    pub fn diff(self) -> (r: DiffUriBuilder<Self>)
        ensures
            r.wf() == self.wf(),
            r.spec_uri() == spec_seg(self.spec_uri(), "diff"@),
    {
        DiffUriBuilder::new(self)
    }
}

impl<'r> UriBuilder for CompareRepositoryUriBuilder<'r> {
    open spec fn wf(&self) -> bool {
        self.spec_base().wf()
    }

    open spec fn spec_uri(&self) -> Seq<char> {
        spec_seg(self.spec_base().spec_uri(), "compare"@)
    }

    fn build(&self) -> (r: Result<String, BuildError>) {
        match self.builder.build() {
            Result::Ok(base) => Result::Ok(base.concat("/").concat("compare")),
            Result::Err(e) => Result::Err(e),
        }
    }
}

/// A repository's settings.
#[derive(Debug, Clone, Copy)]
pub struct RepositorySettingsUriBuilder<'r> {
    builder: WithRepositoryUriBuilder<'r>,
}

impl<'r> RepositorySettingsUriBuilder<'r> {
    /// The repository stage this stage grew from.
    pub closed spec fn spec_base(&self) -> WithRepositoryUriBuilder<'r> {
        self.builder
    }

    pub fn new(builder: WithRepositoryUriBuilder<'r>) -> (r: Self)
        ensures
            r.wf() == builder.wf(),
            r.spec_uri() == spec_seg(builder.spec_uri(), "settings"@),
    {
        RepositorySettingsUriBuilder { builder }
    }

    /// Selects the repository's hook settings.
    pub fn hooks(self) -> (r: RepoHookSettingsUriBuilder<'r>)
        ensures
            r.wf() == self.wf(),
            r.spec_uri() == spec_seg(self.spec_uri(), "hooks"@),
    {
        RepoHookSettingsUriBuilder::new(self)
    }
}

impl<'r> UriBuilder for RepositorySettingsUriBuilder<'r> {
    open spec fn wf(&self) -> bool {
        self.spec_base().wf()
    }

    open spec fn spec_uri(&self) -> Seq<char> {
        spec_seg(self.spec_base().spec_uri(), "settings"@)
    }

    fn build(&self) -> (r: Result<String, BuildError>) {
        match self.builder.build() {
            Result::Ok(base) => Result::Ok(base.concat("/").concat("settings")),
            Result::Err(e) => Result::Err(e),
        }
    }
}

/// The hooks configured on a repository.
#[derive(Debug, Clone, Copy)]
pub struct RepoHookSettingsUriBuilder<'r> {
    builder: RepositorySettingsUriBuilder<'r>,
}

impl<'r> RepoHookSettingsUriBuilder<'r> {
    /// The settings stage this stage grew from.
    pub closed spec fn spec_base(&self) -> RepositorySettingsUriBuilder<'r> {
        self.builder
    }

    pub fn new(builder: RepositorySettingsUriBuilder<'r>) -> (r: Self)
        ensures
            r.wf() == builder.wf(),
            r.spec_uri() == spec_seg(builder.spec_uri(), "hooks"@),
    {
        RepoHookSettingsUriBuilder { builder }
    }

    /// Selects one hook by its key.
    pub fn hook(self, hook: &'r str) -> (r: WithHookUriBuilder<'r>)
        ensures
            r.wf() == self.wf(),
            r.spec_uri() == spec_seg(self.spec_uri(), hook@),
    {
        WithHookUriBuilder::new(self, hook)
    }
}

impl<'r> UriBuilder for RepoHookSettingsUriBuilder<'r> {
    open spec fn wf(&self) -> bool {
        self.spec_base().wf()
    }

    open spec fn spec_uri(&self) -> Seq<char> {
        spec_seg(self.spec_base().spec_uri(), "hooks"@)
    }

    fn build(&self) -> (r: Result<String, BuildError>) {
        match self.builder.build() {
            Result::Ok(base) => Result::Ok(base.concat("/").concat("hooks")),
            Result::Err(e) => Result::Err(e),
        }
    }
}

/// One hook of a repository, selected by its key.
#[derive(Debug, Clone, Copy)]
pub struct WithHookUriBuilder<'r> {
    builder: RepoHookSettingsUriBuilder<'r>,
    hook: &'r str,
}

impl<'r> WithHookUriBuilder<'r> {
    /// The hooks stage this stage grew from.
    pub closed spec fn spec_base(&self) -> RepoHookSettingsUriBuilder<'r> {
        self.builder
    }

    /// The hook key rendered by this stage.
    pub closed spec fn spec_hook(&self) -> Seq<char> {
        self.hook@
    }

    pub fn new(builder: RepoHookSettingsUriBuilder<'r>, hook: &'r str) -> (r: Self)
        ensures
            r.spec_base() == builder,
            r.spec_hook() == hook@,
    {
        WithHookUriBuilder { builder, hook }
    }

    /// Selects whether the hook is enabled.
    pub fn enabled(self) -> (r: TerminalUriBuilder<Self>)
        ensures
            r.wf() == self.wf(),
            r.spec_uri() == spec_seg(self.spec_uri(), "enabled"@),
    {
        TerminalUriBuilder::new(self, "enabled".to_owned())
    }

    /// Selects the hook's own settings.
    pub fn settings(self) -> (r: TerminalUriBuilder<Self>)
        ensures
            r.wf() == self.wf(),
            r.spec_uri() == spec_seg(self.spec_uri(), "settings"@),
    {
        TerminalUriBuilder::new(self, "settings".to_owned())
    }
}

impl<'r> UriBuilder for WithHookUriBuilder<'r> {
    open spec fn wf(&self) -> bool {
        self.spec_base().wf()
    }

    open spec fn spec_uri(&self) -> Seq<char> {
        spec_seg(self.spec_base().spec_uri(), self.spec_hook())
    }

    fn build(&self) -> (r: Result<String, BuildError>) {
        match self.builder.build() {
            Result::Ok(base) => Result::Ok(base.concat("/").concat(self.hook)),
            Result::Err(e) => Result::Err(e),
        }
    }
}

} // verus!
