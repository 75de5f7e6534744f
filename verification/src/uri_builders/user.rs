//! The users branch of the hierarchy.

use crate::uri_builders::resource::ResourceUriBuilder;
use crate::uri_builders::{spec_seg, BuildError, TerminalUriBuilder, UriBuilder};
use vstd::prelude::*;
use vstd::string::StringExecFns;

verus! {

/// The users known to the server.
#[derive(Debug, Clone, Copy)]
pub struct UserUriBuilder<'r> {
    builder: ResourceUriBuilder<'r>,
}

impl<'r> UserUriBuilder<'r> {
    /// The root builder this stage grew from.
    pub closed spec fn spec_base(&self) -> ResourceUriBuilder<'r> {
        self.builder
    }

    pub fn new(builder: ResourceUriBuilder<'r>) -> (r: Self)
        ensures
            r.wf() == builder.wf(),
            r.spec_uri() == spec_seg(builder.spec_uri(), "users"@),
    {
        UserUriBuilder { builder }
    }

    /// Selects one user by slug.
    pub fn user(self, user: &'r str) -> (r: WithUserUriBuilder<'r>)
        ensures
            r.wf() == self.wf(),
            r.spec_uri() == spec_seg(self.spec_uri(), user@),
    {
        WithUserUriBuilder::new(self, user)
    }

    /// Updates the calling user's credentials.
    pub fn credentials(self) -> (r: TerminalUriBuilder<Self>)
        ensures
            r.wf() == self.wf(),
            r.spec_uri() == spec_seg(self.spec_uri(), "credentials"@),
    {
        TerminalUriBuilder::new(self, "credentials".to_owned())
    }
}

impl<'r> UriBuilder for UserUriBuilder<'r> {
    open spec fn wf(&self) -> bool {
        self.spec_base().wf()
    }

    open spec fn spec_uri(&self) -> Seq<char> {
        spec_seg(self.spec_base().spec_uri(), "users"@)
    }

    fn build(&self) -> (r: Result<String, BuildError>) {
        match self.builder.build() {
            Result::Ok(base) => Result::Ok(base.concat("/").concat("users")),
            Result::Err(e) => Result::Err(e),
        }
    }
}

/// One user, selected by slug.
#[derive(Debug, Clone, Copy)]
pub struct WithUserUriBuilder<'r> {
    builder: UserUriBuilder<'r>,
    user: &'r str,
}

impl<'r> WithUserUriBuilder<'r> {
    /// The users stage this stage grew from.
    pub closed spec fn spec_base(&self) -> UserUriBuilder<'r> {
        self.builder
    }

    /// The user slug rendered by this stage.
    pub closed spec fn spec_user(&self) -> Seq<char> {
        self.user@
    }

    pub fn new(builder: UserUriBuilder<'r>, user: &'r str) -> (r: Self)
        ensures
            r.spec_base() == builder,
            r.spec_user() == user@,
    {
        WithUserUriBuilder { builder, user }
    }

    /// Selects the user's avatar.
    pub fn avatar(self) -> (r: TerminalUriBuilder<Self>)
        ensures
            r.wf() == self.wf(),
            r.spec_uri() == spec_seg(self.spec_uri(), "avatar.png"@),
    {
        TerminalUriBuilder::new(self, "avatar.png".to_owned())
    }
}

impl<'r> UriBuilder for WithUserUriBuilder<'r> {
    open spec fn wf(&self) -> bool {
        self.spec_base().wf()
    }

    open spec fn spec_uri(&self) -> Seq<char> {
        spec_seg(self.spec_base().spec_uri(), self.spec_user())
    }

    fn build(&self) -> (r: Result<String, BuildError>) {
        match self.builder.build() {
            Result::Ok(base) => Result::Ok(base.concat("/").concat(self.user)),
            Result::Err(e) => Result::Err(e),
        }
    }
}

} // verus!
