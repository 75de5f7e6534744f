//! A typed client library for a source-code-hosting server's REST API.
//!
//! The heart of the crate is a hierarchy of composable URI builders that
//! mirrors the server's resource nesting (host, project, repository, branch,
//! commit, pull request, administration). Every builder renders its URI with
//! `build()`, whose contract pins the produced string exactly; the single
//! run-time failure is a missing host at the root.

use vstd::prelude::*;

pub mod auth;
pub mod client;
pub mod error_payload;
pub mod models;
pub mod pagination;
pub mod uri_builders;

verus! {

/// Transport scheme used by the root URI builder.
#[derive(Debug, Clone, Copy)]
pub enum Scheme {
    HTTP,
    HTTPS,
}

} // verus!
