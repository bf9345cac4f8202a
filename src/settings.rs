//! Settings of the services the pipeline talks to.
use vstd::prelude::*;

verus! {

/// Addresses and credentials of the source-control host, the ticket tracker
/// and the live-versions endpoint.
#[derive(Debug)]
pub struct Config {
    pub github_token: String,
    pub github_server: String,
    pub jira_token: String,
    pub jira_server: String,
    pub versions_live: String,
}

/// The version that the live-versions endpoint reports.
#[derive(Debug)]
pub struct VersionServiceResponse {
    pub version: String,
}

/// Why the live-versions endpoint gave no version: the HTTP status, if any, and a message.
#[derive(Debug)]
pub struct VersionServiceError {
    pub code: Option<u16>,
    pub message: String,
}

/// Access to the live-versions endpoint.
#[derive(Debug)]
pub struct VersionService {
    pub config: Config,
}

impl VersionService {
    pub fn new(config: Config) -> (r: Self)
        ensures
            r.config == config,
    {
        VersionService { config }
    }
}

} // verus!
