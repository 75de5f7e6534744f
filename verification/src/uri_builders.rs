//! Hierarchical URI builders.
//!
//! Every stage of a builder chain implements [`UriBuilder`]: it can render the
//! URI assembled so far, or report the one build-time failure (a root whose
//! host was never supplied). Chains are grown by consuming transition methods,
//! so only syntactically valid resource paths can be expressed; rendering is
//! pure string composition, one segment per stage.

use vstd::prelude::*;
use vstd::string::StringExecFns;

pub mod admin;
pub mod branch;
pub mod browse;
pub mod commit;
pub mod diff;
pub mod file;
pub mod log;
pub mod path;
pub mod permission;
pub mod project;
pub mod pull_request;
pub mod repository;
pub mod resource;
pub mod user;

pub use admin::{
    AdminGroupPermissionUriBuilder, AdminGroupUriBuilder, AdminMailServerUriBuilder,
    AdminPermissionsUriBuilder, AdminUriBuilder, AdminUserPermissionUriBuilder,
    AdminUserUriBuilder,
};
pub use branch::BranchUriBuilder;
pub use browse::BrowseUriBuilder;
pub use commit::{CommitCommentUriBuilder, CommitUriBuilder, WithCommitUriBuilder};
pub use diff::DiffUriBuilder;
pub use file::FileUriBuilder;
pub use log::{LogUriBuilder, RootLoggerUriBuilder, WithLoggerUriBuilder};
pub use path::PathUriBuilder;
pub use permission::{GroupPermissionUriBuilder, PermissionUriBuilder, UserPermissionUriBuilder};
pub use project::{
    ProjectAvatarUriBuilder, ProjectPermissionsUriBuilder, ProjectUriBuilder,
    WithProjectPermissionUriBuilder, WithProjectUriBuilder,
};
pub use pull_request::{
    PullRequestCommentUriBuilder, PullRequestTasksUriBuilder, PullRequestUriBuilder,
    WithPullRequestCommentUriBuilder, WithPullRequestUriBuilder,
};
pub use repository::{
    CompareRepositoryUriBuilder, RepoHookSettingsUriBuilder, RepositorySettingsUriBuilder,
    RepositoryUriBuilder, WithHookUriBuilder, WithRepositoryUriBuilder,
};
pub use resource::ResourceUriBuilder;
pub use user::{UserUriBuilder, WithUserUriBuilder};

verus! {

/// The fixed prefix under which every REST resource of the server lives.
pub open spec fn rest_api_prefix() -> Seq<char> {
    "rest/api/1.0"@
}

/// The message carried by the one build-time failure: a root builder whose
/// host was never supplied.
pub open spec fn missing_host_message() -> Seq<char> {
    "host must be initialized"@
}

/// One path segment appended to a rendered prefix: `base`, a separator, `seg`.
pub open spec fn spec_seg(base: Seq<char>, seg: Seq<char>) -> Seq<char> {
    base + "/"@ + seg
}

/// Error produced when a URI chain cannot be rendered.
#[derive(Debug)]
pub struct BuildError {
    msg: String,
}

impl View for BuildError {
    type V = Seq<char>;

    closed spec fn view(&self) -> Seq<char> {
        self.msg@
    }
}

impl BuildError {
    pub fn new(msg: String) -> (r: Self)
        ensures
            r@ == msg@,
    {
        BuildError { msg }
    }

    pub fn msg(&self) -> (r: &str)
        ensures
            r@ == self@,
    {
        self.msg.as_str()
    }
}

/// What `build` may hand back for the chain `b`: on success, exactly the URI
/// the chain denotes; on failure, exactly the missing-host error.
pub open spec fn build_result_matches<B: UriBuilder + ?Sized>(
    b: &B,
    r: Result<String, BuildError>,
) -> bool {
    match r {
        Result::Ok(uri) => b.wf() && uri@ == b.spec_uri(),
        Result::Err(e) => !b.wf() && e@ == missing_host_message(),
    }
}

/// The capability shared by every stage of a builder chain.
pub trait UriBuilder {
    /// Whether the chain can render: the root received every required input.
    spec fn wf(&self) -> bool;

    /// The URI the chain denotes (meaningful whenever `wf()` holds).
    spec fn spec_uri(&self) -> Seq<char>;

    /// Renders the chain, or reports why it cannot be rendered.
    fn build(&self) -> (r: Result<String, BuildError>)
        ensures
            (match r {
                Result::Ok(uri) => self.wf() && uri@ == self.spec_uri(),
                Result::Err(e) => !self.wf() && e@ == missing_host_message(),
            }),
    ;
}

/// Determinism: the outcome of `build` is a function of the builder value
/// alone, so any two results obtained from the same chain agree.
pub proof fn lemma_build_deterministic<B: UriBuilder>(
    b: &B,
    r1: Result<String, BuildError>,
    r2: Result<String, BuildError>,
)
    requires
        build_result_matches(b, r1),
        build_result_matches(b, r2),
    ensures
        r1 is Ok <==> r2 is Ok,
        r1 is Ok ==> r1->Ok_0@ == r2->Ok_0@,
        r1 is Err ==> r1->Err_0@ == r2->Err_0@,
{
}

/// A chain stage that appends one fixed segment and offers no further
/// branching: only `build` remains.
#[derive(Debug, Clone)]
pub struct TerminalUriBuilder<B> {
    builder: B,
    resource: String,
}

impl<B: UriBuilder> TerminalUriBuilder<B> {
    /// The wrapped upstream builder.
    pub closed spec fn spec_base(&self) -> B {
        self.builder
    }

    /// The final segment this stage appends.
    pub closed spec fn spec_segment(&self) -> Seq<char> {
        self.resource@
    }

    pub fn new(builder: B, resource: String) -> (r: Self)
        ensures
            r.spec_base() == builder,
            r.spec_segment() == resource@,
    {
        TerminalUriBuilder { builder, resource }
    }
}

impl<B: UriBuilder> UriBuilder for TerminalUriBuilder<B> {
    open spec fn wf(&self) -> bool {
        self.spec_base().wf()
    }

    open spec fn spec_uri(&self) -> Seq<char> {
        spec_seg(self.spec_base().spec_uri(), self.spec_segment())
    }

    fn build(&self) -> (r: Result<String, BuildError>) {
        match self.builder.build() {
            Result::Ok(base) => Result::Ok(base.concat("/").concat(self.resource.as_str())),
            Result::Err(e) => Result::Err(e),
        }
    }
}

/// Segment composition law: a terminal stage renders its upstream chain's URI
/// plus a separator plus its own segment, and renders exactly when the
/// upstream chain does.
pub proof fn lemma_terminal_composition<B: UriBuilder>(t: TerminalUriBuilder<B>)
    ensures
        t.wf() == t.spec_base().wf(),
        t.spec_uri() == spec_seg(t.spec_base().spec_uri(), t.spec_segment()),
{
}

/// Independence: two terminal stages grown from the same upstream builder
/// render URIs that agree on the entire upstream prefix (separator included)
/// and differ only in their own segment.
pub proof fn lemma_sibling_independence<B: UriBuilder>(
    t1: TerminalUriBuilder<B>,
    t2: TerminalUriBuilder<B>,
)
    requires
        t1.spec_base() == t2.spec_base(),
    ensures
        t1.spec_uri().take(t1.spec_base().spec_uri().len() as int + 1) == t2.spec_uri().take(
            t2.spec_base().spec_uri().len() as int + 1,
        ),
        t1.spec_uri().skip(t1.spec_base().spec_uri().len() as int + 1) == t1.spec_segment(),
        t2.spec_uri().skip(t2.spec_base().spec_uri().len() as int + 1) == t2.spec_segment(),
{
    let base = t1.spec_base().spec_uri();
    lemma_seg_parts(base, t1.spec_segment());
    lemma_seg_parts(base, t2.spec_segment());
}

/// A joined segment splits back into its prefix (with separator) and its segment.
proof fn lemma_seg_parts(base: Seq<char>, seg: Seq<char>)
    ensures
        spec_seg(base, seg).take(base.len() as int + 1) == base + "/"@,
        spec_seg(base, seg).skip(base.len() as int + 1) == seg,
{
    reveal_strlit("/");
    assert(spec_seg(base, seg).take(base.len() as int + 1) =~= base + "/"@);
    assert(spec_seg(base, seg).skip(base.len() as int + 1) =~= seg);
}

/// A builder that renders an empty prefix: the neutral root under the
/// generic suffix combinators, letting any of them stand on its own.
#[derive(Debug, Clone, Copy)]
pub struct EmptyUriBuilder;

impl UriBuilder for EmptyUriBuilder {
    open spec fn wf(&self) -> bool {
        true
    }

    open spec fn spec_uri(&self) -> Seq<char> {
        Seq::<char>::empty()
    }

    fn build(&self) -> (r: Result<String, BuildError>) {
        Result::Ok(String::new())
    }
}

/// The decimal digit `d` as a character.
pub open spec fn spec_dec_digit(d: nat) -> char
    recommends
        d < 10,
{
    if d == 0 {
        '0'
    } else if d == 1 {
        '1'
    } else if d == 2 {
        '2'
    } else if d == 3 {
        '3'
    } else if d == 4 {
        '4'
    } else if d == 5 {
        '5'
    } else if d == 6 {
        '6'
    } else if d == 7 {
        '7'
    } else if d == 8 {
        '8'
    } else {
        '9'
    }
}

/// The decimal rendering of `n`, most significant digit first, no leading
/// zeroes (a single zero renders as "0").
pub open spec fn spec_dec_str(n: nat) -> Seq<char>
    decreases n,
{
    if n < 10 {
        seq![spec_dec_digit(n)]
    } else {
        spec_dec_str(n / 10).push(spec_dec_digit(n % 10))
    }
}

/// A single decimal digit as a string slice.
fn dec_digit(d: u64) -> (r: &'static str)
    requires
        d < 10,
    ensures
        r@ == seq![spec_dec_digit(d as nat)],
{
    proof {
        reveal_strlit("0");
        reveal_strlit("1");
        reveal_strlit("2");
        reveal_strlit("3");
        reveal_strlit("4");
        reveal_strlit("5");
        reveal_strlit("6");
        reveal_strlit("7");
        reveal_strlit("8");
        reveal_strlit("9");
    }
    let r: &'static str = if d == 0 {
        "0"
    } else if d == 1 {
        "1"
    } else if d == 2 {
        "2"
    } else if d == 3 {
        "3"
    } else if d == 4 {
        "4"
    } else if d == 5 {
        "5"
    } else if d == 6 {
        "6"
    } else if d == 7 {
        "7"
    } else if d == 8 {
        "8"
    } else {
        "9"
    };
    proof {
        assert(r@ =~= seq![spec_dec_digit(d as nat)]);
    }
    r
}

/// Renders `n` in decimal, exactly as the chain interpolates numeric
/// identifiers (pull request and comment ids).
pub fn u64_to_string(n: u64) -> (r: String)
    ensures
        r@ == spec_dec_str(n as nat),
    decreases n,
{
    if n < 10 {
        dec_digit(n).to_owned()
    } else {
        proof {
            assert(n / 10 < n) by (nonlinear_arith)
                requires
                    n >= 10,
            ;
        }
        let mut s = u64_to_string(n / 10);
        s.append(dec_digit(n % 10));
        proof {
            assert(s@ =~= spec_dec_str(n as nat));
        }
        s
    }
}

} // verus!
