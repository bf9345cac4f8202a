//! Deploy readiness: which mainline commits are not yet running in an
//! environment, and whether the tickets they reference are cleared for release.
//!
//! The library holds every decision of the report pipeline; the caller only
//! performs the requests that `pipeline::InfoGatheringService` makes of the
//! configuration store, the source-control host and the ticket tracker.
pub mod config_revision;
pub mod correlation;
pub mod errors;
pub mod json;
pub mod pipeline;
pub mod printer;
pub mod repeatability;
pub mod settings;
pub mod source_control;
pub mod text;
pub mod tickets;
pub mod timestamp;
pub mod tracker;

pub use config_revision::{
    config_document_path, config_owner, config_repo, extract_commit_sha, image_tag_path,
    revision_at, revision_from_image_tag, ExtractCommitShaResult, ImageTagScheme,
};
pub use correlation::{
    after_answer, assemble_report, next_lookup, start_scan, ticket_info,
    PrintMessageFromExtractTicketsResultPayload, ScanStep, TicketInfo, TicketInfoGroup,
    TicketLookup,
};
pub use errors::{DeployError, GitHubBaseUrlUndefined, GitHubTokenUndefined};
pub use pipeline::{
    CommitFetch, CommitPayloads, Event, InfoGatheringService, PipelineSettings, Request, Stage,
};
pub use printer::ResultPrinterServiceImpl;
pub use settings::{Config, VersionService, VersionServiceError, VersionServiceResponse};
pub use source_control::{
    commit_url, commits_after, first_request_url, parse_commit, parse_first_request,
    FindFirstPrOfCommitResult, GetCommitResult, GithubSettings, GithubSettingsError,
};
pub use tickets::{TicketExtractionService, PROJECT_BAR_WEB, PROJECT_FOO_WEB};
pub use timestamp::Timestamp;
pub use tracker::{
    parse_search_response, JiraServiceImpl, JiraTicketInfo, TicketSearchRequest, SEARCH_PAGE_SIZE,
};
