//! The logging branch of the hierarchy.

use crate::uri_builders::resource::ResourceUriBuilder;
use crate::uri_builders::{spec_seg, BuildError, TerminalUriBuilder, UriBuilder};
use vstd::prelude::*;
use vstd::string::StringExecFns;

verus! {

/// The server's log settings.
#[derive(Debug, Clone, Copy)]
pub struct LogUriBuilder<'r> {
    builder: ResourceUriBuilder<'r>,
}

impl<'r> LogUriBuilder<'r> {
    /// The root builder this stage grew from.
    pub closed spec fn spec_base(&self) -> ResourceUriBuilder<'r> {
        self.builder
    }

    pub fn new(builder: ResourceUriBuilder<'r>) -> (r: Self)
        ensures
            r.wf() == builder.wf(),
            r.spec_uri() == spec_seg(builder.spec_uri(), "logs"@),
    {
        LogUriBuilder { builder }
    }

    /// Selects one named logger.
    pub fn logger(self, logger: &'r str) -> (r: WithLoggerUriBuilder<'r>)
        ensures
            r.wf() == self.wf(),
            r.spec_uri() == spec_seg(spec_seg(self.spec_uri(), "logger"@), logger@),
    {
        WithLoggerUriBuilder::new(self, logger)
    }

    /// Selects the root logger.
    pub fn root_logger(self) -> (r: RootLoggerUriBuilder<'r>)
        ensures
            r.wf() == self.wf(),
            r.spec_uri() == spec_seg(self.spec_uri(), "rootLogger"@),
    {
        RootLoggerUriBuilder::new(self)
    }
}

impl<'r> UriBuilder for LogUriBuilder<'r> {
    open spec fn wf(&self) -> bool {
        self.spec_base().wf()
    }

    open spec fn spec_uri(&self) -> Seq<char> {
        spec_seg(self.spec_base().spec_uri(), "logs"@)
    }

    fn build(&self) -> (r: Result<String, BuildError>) {
        match self.builder.build() {
            Result::Ok(base) => Result::Ok(base.concat("/").concat("logs")),
            Result::Err(e) => Result::Err(e),
        }
    }
}

/// One named logger.
#[derive(Debug, Clone, Copy)]
pub struct WithLoggerUriBuilder<'r> {
    builder: LogUriBuilder<'r>,
    logger: &'r str,
}

impl<'r> WithLoggerUriBuilder<'r> {
    /// The logs stage this stage grew from.
    pub closed spec fn spec_base(&self) -> LogUriBuilder<'r> {
        self.builder
    }

    /// The logger name rendered by this stage.
    pub closed spec fn spec_logger(&self) -> Seq<char> {
        self.logger@
    }

    pub fn new(builder: LogUriBuilder<'r>, logger: &'r str) -> (r: Self)
        ensures
            r.spec_base() == builder,
            r.spec_logger() == logger@,
    {
        WithLoggerUriBuilder { builder, logger }
    }

    /// Sets or reads the logger's level.
    pub fn level(self, level: &str) -> (r: TerminalUriBuilder<Self>)
        ensures
            r.wf() == self.wf(),
            r.spec_uri() == spec_seg(self.spec_uri(), level@),
    {
        TerminalUriBuilder::new(self, level.to_owned())
    }
}

impl<'r> UriBuilder for WithLoggerUriBuilder<'r> {
    open spec fn wf(&self) -> bool {
        self.spec_base().wf()
    }

    open spec fn spec_uri(&self) -> Seq<char> {
        spec_seg(spec_seg(self.spec_base().spec_uri(), "logger"@), self.spec_logger())
    }

    fn build(&self) -> (r: Result<String, BuildError>) {
        match self.builder.build() {
            Result::Ok(base) => Result::Ok(
                base.concat("/").concat("logger").concat("/").concat(self.logger),
            ),
            Result::Err(e) => Result::Err(e),
        }
    }
}

/// The root logger.
#[derive(Debug, Clone, Copy)]
pub struct RootLoggerUriBuilder<'r> {
    builder: LogUriBuilder<'r>,
}

impl<'r> RootLoggerUriBuilder<'r> {
    /// The logs stage this stage grew from.
    pub closed spec fn spec_base(&self) -> LogUriBuilder<'r> {
        self.builder
    }

    pub fn new(builder: LogUriBuilder<'r>) -> (r: Self)
        ensures
            r.wf() == builder.wf(),
            r.spec_uri() == spec_seg(builder.spec_uri(), "rootLogger"@),
    {
        RootLoggerUriBuilder { builder }
    }

    /// Sets or reads the root logger's level.
    pub fn level(self, level: &str) -> (r: TerminalUriBuilder<Self>)
        ensures
            r.wf() == self.wf(),
            r.spec_uri() == spec_seg(self.spec_uri(), level@),
    {
        TerminalUriBuilder::new(self, level.to_owned())
    }
}

impl<'r> UriBuilder for RootLoggerUriBuilder<'r> {
    open spec fn wf(&self) -> bool {
        self.spec_base().wf()
    }

    open spec fn spec_uri(&self) -> Seq<char> {
        spec_seg(self.spec_base().spec_uri(), "rootLogger"@)
    }

    fn build(&self) -> (r: Result<String, BuildError>) {
        match self.builder.build() {
            Result::Ok(base) => Result::Ok(base.concat("/").concat("rootLogger")),
            Result::Err(e) => Result::Err(e),
        }
    }
}

} // verus!
