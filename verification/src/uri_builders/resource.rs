//! The root of every builder chain: scheme, host and the fixed API prefix.

use crate::uri_builders::admin::AdminUriBuilder;
use crate::uri_builders::log::LogUriBuilder;
use crate::uri_builders::project::ProjectUriBuilder;
use crate::uri_builders::user::UserUriBuilder;
use crate::uri_builders::{rest_api_prefix, spec_seg, BuildError, UriBuilder};
use crate::Scheme;
use vstd::prelude::*;
use vstd::string::StringExecFns;

verus! {

/// What a scheme renders to in front of the authority separator.
pub open spec fn scheme_str(s: Scheme) -> Seq<char> {
    match s {
        Scheme::HTTP => "http"@,
        Scheme::HTTPS => "https"@,
    }
}

/// The base URI a root builder renders: scheme, host and the API prefix.
pub open spec fn spec_base_uri(scheme: Scheme, host: Seq<char>) -> Seq<char> {
    scheme_str(scheme) + "://"@ + host + "/"@ + rest_api_prefix()
}

/// Root of the builder hierarchy. It fails to render until a host is
/// supplied; every other input has a default.
#[derive(Debug, Clone, Copy)]
pub struct ResourceUriBuilder<'r> {
    scheme: Scheme,
    host: Option<&'r str>,
}

impl<'r> ResourceUriBuilder<'r> {
    /// The scheme currently chosen.
    pub closed spec fn spec_scheme(&self) -> Scheme {
        self.scheme
    }

    /// The host, if one was supplied.
    pub closed spec fn spec_host(&self) -> Option<Seq<char>> {
        match self.host {
            Option::Some(h) => Option::Some(h@),
            Option::None => Option::None,
        }
    }

    pub fn scheme(self, scheme: &Scheme) -> (r: Self)
        ensures
            r.spec_scheme() == *scheme,
            r.spec_host() == self.spec_host(),
    {
        ResourceUriBuilder { scheme: *scheme, host: self.host }
    }

    pub fn host(self, host: &'r str) -> (r: Self)
        ensures
            r.spec_scheme() == self.spec_scheme(),
            r.spec_host() == Option::Some(host@),
    {
        ResourceUriBuilder { scheme: self.scheme, host: Option::Some(host) }
    }

    /// Selects the administration endpoints.
    pub fn admin(self) -> (r: AdminUriBuilder<'r>)
        ensures
            r.wf() == self.wf(),
            r.spec_uri() == spec_seg(self.spec_uri(), "admin"@),
    {
        AdminUriBuilder::new(self)
    }

    /// Selects the projects on the server.
    pub fn projects(self) -> (r: ProjectUriBuilder<'r>)
        ensures
            r.wf() == self.wf(),
            r.spec_uri() == spec_seg(self.spec_uri(), "projects"@),
    {
        ProjectUriBuilder::new(self)
    }

    /// Selects the users known to the server.
    pub fn users(self) -> (r: UserUriBuilder<'r>)
        ensures
            r.wf() == self.wf(),
            r.spec_uri() == spec_seg(self.spec_uri(), "users"@),
    {
        UserUriBuilder::new(self)
    }

    /// Selects the server's log settings.
    pub fn logs(self) -> (r: LogUriBuilder<'r>)
        ensures
            r.wf() == self.wf(),
            r.spec_uri() == spec_seg(self.spec_uri(), "logs"@),
    {
        LogUriBuilder::new(self)
    }
}

impl<'r> Default for ResourceUriBuilder<'r> {
    /// A root builder over HTTP with no host yet.
    fn default() -> (r: Self)
        ensures
            r.spec_scheme() == Scheme::HTTP,
            r.spec_host() is None,
    {
        ResourceUriBuilder { scheme: Scheme::HTTP, host: Option::None }
    }
}

impl<'r> UriBuilder for ResourceUriBuilder<'r> {
    open spec fn wf(&self) -> bool {
        self.spec_host() is Some
    }

    open spec fn spec_uri(&self) -> Seq<char> {
        spec_base_uri(self.spec_scheme(), self.spec_host()->0)
    }

    fn build(&self) -> (r: Result<String, BuildError>) {
        match self.host {
            Option::None => Result::Err(BuildError::new("host must be initialized".to_owned())),
            Option::Some(host) => {
                let scheme = match self.scheme {
                    Scheme::HTTP => "http",
                    Scheme::HTTPS => "https",
                };
                Result::Ok(
                    scheme.to_owned().concat("://").concat(host).concat("/").concat(
                        "rest/api/1.0",
                    ),
                )
            },
        }
    }
}

} // verus!
