//! The files suffix, reusable below any upstream builder.

use crate::uri_builders::path::PathUriBuilder;
use crate::uri_builders::{spec_seg, BuildError, TerminalUriBuilder, UriBuilder};
use vstd::prelude::*;

verus! {

/// Appends `files` below any upstream builder; an optional free path may
/// follow.
#[derive(Debug, Clone, Copy)]
pub struct FileUriBuilder<B> {
    builder: PathUriBuilder<'static, B>,
}

impl<B: UriBuilder> FileUriBuilder<B> {
    /// The inner stage holding the upstream builder and the `files` segment.
    pub closed spec fn spec_inner(&self) -> PathUriBuilder<'static, B> {
        self.builder
    }

    pub fn new(builder: B) -> (r: Self)
        ensures
            r.wf() == builder.wf(),
            r.spec_uri() == spec_seg(builder.spec_uri(), "files"@),
    {
        let builder = PathUriBuilder::new(builder, "files");
        FileUriBuilder { builder }
    }

    /// Lists one file or directory below the resource.
    pub fn path(self, path: &str) -> (r: TerminalUriBuilder<PathUriBuilder<'static, B>>)
        ensures
            r.wf() == self.wf(),
            r.spec_uri() == spec_seg(self.spec_uri(), path@),
    {
        self.builder.path(path)
    }
}

impl<B: UriBuilder> UriBuilder for FileUriBuilder<B> {
    open spec fn wf(&self) -> bool {
        self.spec_inner().wf()
    }

    open spec fn spec_uri(&self) -> Seq<char> {
        self.spec_inner().spec_uri()
    }

    fn build(&self) -> (r: Result<String, BuildError>) {
        self.builder.build()
    }
}

} // verus!
