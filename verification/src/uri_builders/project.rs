//! The projects branch of the hierarchy.

use crate::uri_builders::permission::{
    GroupPermissionUriBuilder, PermissionUriBuilder, UserPermissionUriBuilder,
};
use crate::uri_builders::repository::RepositoryUriBuilder;
use crate::uri_builders::resource::ResourceUriBuilder;
use crate::uri_builders::{spec_seg, BuildError, TerminalUriBuilder, UriBuilder};
use vstd::prelude::*;
use vstd::string::StringExecFns;

verus! {

/// The collection of projects on the server.
#[derive(Debug, Clone, Copy)]
pub struct ProjectUriBuilder<'r> {
    builder: ResourceUriBuilder<'r>,
}

impl<'r> ProjectUriBuilder<'r> {
    /// The root builder this stage grew from.
    pub closed spec fn spec_base(&self) -> ResourceUriBuilder<'r> {
        self.builder
    }

    pub fn new(builder: ResourceUriBuilder<'r>) -> (r: Self)
        ensures
            r.spec_base() == builder,
    {
        ProjectUriBuilder { builder }
    }

    /// Selects one project by its key.
    pub fn project(self, project: &'r str) -> (r: WithProjectUriBuilder<'r>)
        ensures
            r.wf() == self.wf(),
            r.spec_uri() == spec_seg(self.spec_uri(), project@),
    {
        WithProjectUriBuilder::new(self, project)
    }
}

impl<'r> UriBuilder for ProjectUriBuilder<'r> {
    open spec fn wf(&self) -> bool {
        self.spec_base().wf()
    }

    open spec fn spec_uri(&self) -> Seq<char> {
        spec_seg(self.spec_base().spec_uri(), "projects"@)
    }

    fn build(&self) -> (r: Result<String, BuildError>) {
        match self.builder.build() {
            Result::Ok(base) => Result::Ok(base.concat("/").concat("projects")),
            Result::Err(e) => Result::Err(e),
        }
    }
}

/// One project, selected by its key.
#[derive(Debug, Clone, Copy)]
pub struct WithProjectUriBuilder<'r> {
    builder: ProjectUriBuilder<'r>,
    project: &'r str,
}

impl<'r> WithProjectUriBuilder<'r> {
    /// The projects stage this stage grew from.
    pub closed spec fn spec_base(&self) -> ProjectUriBuilder<'r> {
        self.builder
    }

    /// The project key rendered by this stage.
    pub closed spec fn spec_project(&self) -> Seq<char> {
        self.project@
    }

    pub fn new(builder: ProjectUriBuilder<'r>, project: &'r str) -> (r: Self)
        ensures
            r.spec_base() == builder,
            r.spec_project() == project@,
    {
        WithProjectUriBuilder { builder, project }
    }

    /// Selects the project's avatar.
    pub fn avatar(self) -> (r: ProjectAvatarUriBuilder<'r>)
        ensures
            r.wf() == self.wf(),
            r.spec_uri() == spec_seg(self.spec_uri(), "avatar.png"@),
    {
        ProjectAvatarUriBuilder::new(self)
    }

    /// Selects the project's repositories.
    pub fn repos(self) -> (r: RepositoryUriBuilder<'r>)
        ensures
            r.wf() == self.wf(),
            r.spec_uri() == spec_seg(self.spec_uri(), "repos"@),
    {
        RepositoryUriBuilder::new(self)
    }

    /// Selects the project's permissions.
    pub fn permissions(self) -> (r: ProjectPermissionsUriBuilder<'r>)
        ensures
            r.wf() == self.wf(),
            r.spec_uri() == spec_seg(self.spec_uri(), "permissions"@),
    {
        ProjectPermissionsUriBuilder::new(self)
    }
}

impl<'r> UriBuilder for WithProjectUriBuilder<'r> {
    open spec fn wf(&self) -> bool {
        self.spec_base().wf()
    }

    open spec fn spec_uri(&self) -> Seq<char> {
        spec_seg(self.spec_base().spec_uri(), self.spec_project())
    }

    fn build(&self) -> (r: Result<String, BuildError>) {
        match self.builder.build() {
            Result::Ok(base) => Result::Ok(base.concat("/").concat(self.project)),
            Result::Err(e) => Result::Err(e),
        }
    }
}

/// A project's avatar.
#[derive(Debug, Clone, Copy)]
pub struct ProjectAvatarUriBuilder<'r> {
    builder: WithProjectUriBuilder<'r>,
}

impl<'r> ProjectAvatarUriBuilder<'r> {
    /// The project stage this stage grew from.
    pub closed spec fn spec_base(&self) -> WithProjectUriBuilder<'r> {
        self.builder
    }

    pub fn new(builder: WithProjectUriBuilder<'r>) -> (r: Self)
        ensures
            r.wf() == builder.wf(),
            r.spec_uri() == spec_seg(builder.spec_uri(), "avatar.png"@),
    {
        ProjectAvatarUriBuilder { builder }
    }
}

impl<'r> UriBuilder for ProjectAvatarUriBuilder<'r> {
    open spec fn wf(&self) -> bool {
        self.spec_base().wf()
    }

    open spec fn spec_uri(&self) -> Seq<char> {
        spec_seg(self.spec_base().spec_uri(), "avatar.png"@)
    }

    fn build(&self) -> (r: Result<String, BuildError>) {
        match self.builder.build() {
            Result::Ok(base) => Result::Ok(base.concat("/").concat("avatar.png")),
            Result::Err(e) => Result::Err(e),
        }
    }
}

/// A project's permissions, with the named-permission refinement the
/// project branch adds over the generic permissions suffix.
#[derive(Debug, Clone, Copy)]
pub struct ProjectPermissionsUriBuilder<'r> {
    builder: PermissionUriBuilder<WithProjectUriBuilder<'r>>,
}

impl<'r> ProjectPermissionsUriBuilder<'r> {
    /// The inner permissions stage.
    pub closed spec fn spec_inner(&self) -> PermissionUriBuilder<WithProjectUriBuilder<'r>> {
        self.builder
    }

    pub fn new(builder: WithProjectUriBuilder<'r>) -> (r: Self)
        ensures
            r.wf() == builder.wf(),
            r.spec_uri() == spec_seg(builder.spec_uri(), "permissions"@),
    {
        let builder = PermissionUriBuilder::new(builder);
        ProjectPermissionsUriBuilder { builder }
    }

    /// Selects the project's group permissions.
    pub fn groups(self) -> (r: GroupPermissionUriBuilder<WithProjectUriBuilder<'r>>)
        ensures
            r.wf() == self.wf(),
            r.spec_uri() == spec_seg(self.spec_uri(), "groups"@),
    {
        self.builder.groups()
    }

    /// Selects the project's user permissions.
    pub fn users(self) -> (r: UserPermissionUriBuilder<WithProjectUriBuilder<'r>>)
        ensures
            r.wf() == self.wf(),
            r.spec_uri() == spec_seg(self.spec_uri(), "users"@),
    {
        self.builder.users()
    }

    /// Selects one named permission of the project.
    pub fn permission(self, perm: &'r str) -> (r: WithProjectPermissionUriBuilder<'r>)
        ensures
            r.wf() == self.wf(),
            r.spec_uri() == spec_seg(self.spec_uri(), perm@),
    {
        WithProjectPermissionUriBuilder::new(self, perm)
    }
}

impl<'r> UriBuilder for ProjectPermissionsUriBuilder<'r> {
    open spec fn wf(&self) -> bool {
        self.spec_inner().wf()
    }

    open spec fn spec_uri(&self) -> Seq<char> {
        self.spec_inner().spec_uri()
    }

    fn build(&self) -> (r: Result<String, BuildError>) {
        self.builder.build()
    }
}

/// One named permission of a project.
#[derive(Debug, Clone, Copy)]
pub struct WithProjectPermissionUriBuilder<'r> {
    builder: ProjectPermissionsUriBuilder<'r>,
    permission: &'r str,
}

impl<'r> WithProjectPermissionUriBuilder<'r> {
    /// The permissions stage this stage grew from.
    pub closed spec fn spec_base(&self) -> ProjectPermissionsUriBuilder<'r> {
        self.builder
    }

    /// The permission name rendered by this stage.
    pub closed spec fn spec_permission(&self) -> Seq<char> {
        self.permission@
    }

    pub fn new(builder: ProjectPermissionsUriBuilder<'r>, permission: &'r str) -> (r: Self)
        ensures
            r.spec_base() == builder,
            r.spec_permission() == permission@,
    {
        WithProjectPermissionUriBuilder { builder, permission }
    }

    /// Selects every user or group holding the permission.
    pub fn all(self) -> (r: TerminalUriBuilder<Self>)
        ensures
            r.wf() == self.wf(),
            r.spec_uri() == spec_seg(self.spec_uri(), "all"@),
    {
        TerminalUriBuilder::new(self, "all".to_owned())
    }
}

impl<'r> UriBuilder for WithProjectPermissionUriBuilder<'r> {
    open spec fn wf(&self) -> bool {
        self.spec_base().wf()
    }

    open spec fn spec_uri(&self) -> Seq<char> {
        spec_seg(self.spec_base().spec_uri(), self.spec_permission())
    }

    fn build(&self) -> (r: Result<String, BuildError>) {
        match self.builder.build() {
            Result::Ok(base) => Result::Ok(base.concat("/").concat(self.permission)),
            Result::Err(e) => Result::Err(e),
        }
    }
}

} // verus!
