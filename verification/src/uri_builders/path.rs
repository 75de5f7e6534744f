//! A stage that appends one caller-supplied path below any upstream builder.

use crate::uri_builders::{spec_seg, BuildError, TerminalUriBuilder, UriBuilder};
use vstd::prelude::*;
use vstd::string::StringExecFns;

verus! {

/// Appends a fixed segment to any upstream builder and still allows one
/// free-form path below it.
#[derive(Debug, Clone, Copy)]
pub struct PathUriBuilder<'r, B> {
    builder: B,
    path: &'r str,
}

impl<'r, B: UriBuilder> PathUriBuilder<'r, B> {
    /// The wrapped upstream builder.
    pub closed spec fn spec_base(&self) -> B {
        self.builder
    }

    /// The segment this stage appends.
    pub closed spec fn spec_segment(&self) -> Seq<char> {
        self.path@
    }

    pub fn new(builder: B, path: &'r str) -> (r: Self)
        ensures
            r.spec_base() == builder,
            r.spec_segment() == path@,
    {
        PathUriBuilder { builder, path }
    }

    /// Appends one more caller-supplied path and terminates the chain.
    pub fn path(self, path: &str) -> (r: TerminalUriBuilder<Self>)
        ensures
            r.wf() == self.wf(),
            r.spec_uri() == spec_seg(self.spec_uri(), path@),
    {
        TerminalUriBuilder::new(self, path.to_owned())
    }
}

impl<'r, B: UriBuilder> UriBuilder for PathUriBuilder<'r, B> {
    open spec fn wf(&self) -> bool {
        self.spec_base().wf()
    }

    open spec fn spec_uri(&self) -> Seq<char> {
        spec_seg(self.spec_base().spec_uri(), self.spec_segment())
    }

    fn build(&self) -> (r: Result<String, BuildError>) {
        match self.builder.build() {
            Result::Ok(base) => Result::Ok(base.concat("/").concat(self.path)),
            Result::Err(e) => Result::Err(e),
        }
    }
}

} // verus!
