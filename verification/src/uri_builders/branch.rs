//! The branches of one repository.

use crate::uri_builders::repository::WithRepositoryUriBuilder;
use crate::uri_builders::{spec_seg, BuildError, TerminalUriBuilder, UriBuilder};
use vstd::prelude::*;
use vstd::string::StringExecFns;

verus! {

/// The branches of one repository.
#[derive(Debug, Clone, Copy)]
pub struct BranchUriBuilder<'r> {
    builder: WithRepositoryUriBuilder<'r>,
}

impl<'r> BranchUriBuilder<'r> {
    /// The repository stage this stage grew from.
    pub closed spec fn spec_base(&self) -> WithRepositoryUriBuilder<'r> {
        self.builder
    }

    pub fn new(builder: WithRepositoryUriBuilder<'r>) -> (r: Self)
        ensures
            r.wf() == builder.wf(),
            r.spec_uri() == spec_seg(builder.spec_uri(), "branches"@),
    {
        BranchUriBuilder { builder }
    }

    /// Selects the repository's default branch.
    pub fn default(self) -> (r: TerminalUriBuilder<Self>)
        ensures
            r.wf() == self.wf(),
            r.spec_uri() == spec_seg(self.spec_uri(), "default"@),
    {
        TerminalUriBuilder::new(self, "default".to_owned())
    }
}

impl<'r> UriBuilder for BranchUriBuilder<'r> {
    open spec fn wf(&self) -> bool {
        self.spec_base().wf()
    }

    open spec fn spec_uri(&self) -> Seq<char> {
        spec_seg(self.spec_base().spec_uri(), "branches"@)
    }

    fn build(&self) -> (r: Result<String, BuildError>) {
        match self.builder.build() {
            Result::Ok(base) => Result::Ok(base.concat("/").concat("branches")),
            Result::Err(e) => Result::Err(e),
        }
    }
}

} // verus!
