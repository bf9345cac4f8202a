//! Failures of the pipeline stages.
use vstd::prelude::*;

verus! {

/// Why a stage of the pipeline failed.
#[derive(Debug)]
pub enum DeployError {
    /// An upstream service answered with a failure or with a payload that cannot be read.
    Upstream(String),
    /// The configuration document holds no image tag at this JSON pointer.
    PathNotFound(String),
    /// A ticket query was asked for with no ticket keys.
    EmptyInput,
    /// A date in upstream data is not a valid timestamp.
    TimestampParse(String),
    /// An image tag without the dash that separates its revision.
    TagWithoutRevision(String),
}

/// No base URL was configured for the source-control host.
#[derive(Debug, Clone, Copy, PartialEq, Eq, Structural)]
pub struct GitHubBaseUrlUndefined;

/// No token was configured for the source-control host.
#[derive(Debug, Clone, Copy, PartialEq, Eq, Structural)]
pub struct GitHubTokenUndefined;

impl GitHubBaseUrlUndefined {
    pub fn message(&self) -> (r: String)
        ensures
            r@ == "GitHub base URL is undefined"@,
    {
        String::from_str("GitHub base URL is undefined")
    }
}

impl GitHubTokenUndefined {
    pub fn message(&self) -> (r: String)
        ensures
            r@ == "GitHub token is undefined"@,
    {
        String::from_str("GitHub token is undefined")
    }
}

} // verus!
