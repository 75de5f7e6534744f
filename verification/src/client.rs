//! The payload shape every response decodes into: either the expected value
//! or the server's structured error payload.

use crate::models::BitbucketErrors;
use vstd::prelude::*;

verus! {

/// What a decoded response body holds: the requested entity, or the error
/// payload the server attached to a failed request.
#[derive(Debug, PartialEq, Eq)]
pub enum ApiResult<R> {
    Value(R),
    Errors(BitbucketErrors),
}

impl<R> ApiResult<R> {
    /// Separates the two outcomes into an ordinary result.
    pub fn to_result(self) -> (r: Result<R, BitbucketErrors>)
        ensures
            (match self {
                ApiResult::Value(v) => r matches Result::Ok(rv) && rv == v,
                ApiResult::Errors(e) => r matches Result::Err(re) && re == e,
            }),
    {
        match self {
            ApiResult::Value(v) => Result::Ok(v),
            ApiResult::Errors(e) => Result::Err(e),
        }
    }
}

} // verus!
