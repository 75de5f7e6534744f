//! The permissions suffix, reusable below any upstream builder.

use crate::uri_builders::{spec_seg, BuildError, TerminalUriBuilder, UriBuilder};
use vstd::prelude::*;
use vstd::string::StringExecFns;

verus! {

/// Appends `permissions` below any upstream builder.
#[derive(Debug, Clone, Copy)]
pub struct PermissionUriBuilder<B> {
    builder: B,
}

impl<B: UriBuilder> PermissionUriBuilder<B> {
    /// The wrapped upstream builder.
    pub closed spec fn spec_base(&self) -> B {
        self.builder
    }

    pub fn new(builder: B) -> (r: Self)
        ensures
            r.wf() == builder.wf(),
            r.spec_uri() == spec_seg(builder.spec_uri(), "permissions"@),
    {
        PermissionUriBuilder { builder }
    }

    /// Selects the group permissions below the resource.
    pub fn groups(self) -> (r: GroupPermissionUriBuilder<B>)
        ensures
            r.wf() == self.wf(),
            r.spec_uri() == spec_seg(self.spec_uri(), "groups"@),
    {
        GroupPermissionUriBuilder::new(self)
    }

    /// Selects the user permissions below the resource.
    pub fn users(self) -> (r: UserPermissionUriBuilder<B>)
        ensures
            r.wf() == self.wf(),
            r.spec_uri() == spec_seg(self.spec_uri(), "users"@),
    {
        UserPermissionUriBuilder::new(self)
    }
}

impl<B: UriBuilder> UriBuilder for PermissionUriBuilder<B> {
    open spec fn wf(&self) -> bool {
        self.spec_base().wf()
    }

    open spec fn spec_uri(&self) -> Seq<char> {
        spec_seg(self.spec_base().spec_uri(), "permissions"@)
    }

    fn build(&self) -> (r: Result<String, BuildError>) {
        match self.builder.build() {
            Result::Ok(base) => Result::Ok(base.concat("/").concat("permissions")),
            Result::Err(e) => Result::Err(e),
        }
    }
}

/// The group permissions below a resource.
#[derive(Debug, Clone, Copy)]
pub struct GroupPermissionUriBuilder<B> {
    builder: PermissionUriBuilder<B>,
}

impl<B: UriBuilder> GroupPermissionUriBuilder<B> {
    /// The wrapped permissions stage.
    pub closed spec fn spec_base(&self) -> PermissionUriBuilder<B> {
        self.builder
    }

    pub fn new(builder: PermissionUriBuilder<B>) -> (r: Self)
        ensures
            r.wf() == builder.wf(),
            r.spec_uri() == spec_seg(builder.spec_uri(), "groups"@),
    {
        GroupPermissionUriBuilder { builder }
    }

    /// Selects the groups holding no permission.
    pub fn none(self) -> (r: TerminalUriBuilder<Self>)
        ensures
            r.wf() == self.wf(),
            r.spec_uri() == spec_seg(self.spec_uri(), "none"@),
    {
        TerminalUriBuilder::new(self, "none".to_owned())
    }
}

impl<B: UriBuilder> UriBuilder for GroupPermissionUriBuilder<B> {
    open spec fn wf(&self) -> bool {
        self.spec_base().wf()
    }

    open spec fn spec_uri(&self) -> Seq<char> {
        spec_seg(self.spec_base().spec_uri(), "groups"@)
    }

    fn build(&self) -> (r: Result<String, BuildError>) {
        match self.builder.build() {
            Result::Ok(base) => Result::Ok(base.concat("/").concat("groups")),
            Result::Err(e) => Result::Err(e),
        }
    }
}

/// The user permissions below a resource.
#[derive(Debug, Clone, Copy)]
pub struct UserPermissionUriBuilder<B> {
    builder: PermissionUriBuilder<B>,
}

impl<B: UriBuilder> UserPermissionUriBuilder<B> {
    /// The wrapped permissions stage.
    pub closed spec fn spec_base(&self) -> PermissionUriBuilder<B> {
        self.builder
    }

    pub fn new(builder: PermissionUriBuilder<B>) -> (r: Self)
        ensures
            r.wf() == builder.wf(),
            r.spec_uri() == spec_seg(builder.spec_uri(), "users"@),
    {
        UserPermissionUriBuilder { builder }
    }

    /// Selects the users holding no permission.
    pub fn none(self) -> (r: TerminalUriBuilder<Self>)
        ensures
            r.wf() == self.wf(),
            r.spec_uri() == spec_seg(self.spec_uri(), "none"@),
    {
        TerminalUriBuilder::new(self, "none".to_owned())
    }
}

impl<B: UriBuilder> UriBuilder for UserPermissionUriBuilder<B> {
    open spec fn wf(&self) -> bool {
        self.spec_base().wf()
    }

    open spec fn spec_uri(&self) -> Seq<char> {
        spec_seg(self.spec_base().spec_uri(), "users"@)
    }

    fn build(&self) -> (r: Result<String, BuildError>) {
        match self.builder.build() {
            Result::Ok(base) => Result::Ok(base.concat("/").concat("users")),
            Result::Err(e) => Result::Err(e),
        }
    }
}

} // verus!
