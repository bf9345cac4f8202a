//! Config revision resolution: the revision currently deployed to an
//! environment, read from the image tag in the service's configuration document.
use vstd::prelude::*;
use crate::errors::DeployError;
use crate::json::{json_parses, json_str_at, JsonDocument};
use crate::text::{after_last, text_after_last};

verus! {

/// The revision identifier that a configuration document names.
#[derive(Debug)]
pub struct ExtractCommitShaResult {
    pub commit_sha: String,
}

/// Where in the configuration document the image tag of a service stands.
#[derive(Debug)]
pub enum ImageTagScheme {
    /// `/service/{service}/env/{env}/imageTag`
    PerEnvironment,
    /// `/spec/workloads/{service}/clusters/{cluster}/envs/{env}/tracks/main/containers/{container}/imageTag`
    PerCluster { cluster: String, container: String },
}

impl ImageTagScheme {
    /// The scheme for a deployment to `cluster`, if one is named: there the
    /// service's container carries the service's name.
    pub fn for_cluster(cluster: Option<String>, service: &str) -> (r: ImageTagScheme)
        ensures
            cluster is None ==> r is PerEnvironment,
            cluster matches Some(c) ==> (r matches ImageTagScheme::PerCluster { cluster: k, container }
                && k == c && container@ == service@),
    {
        match cluster {
            None => ImageTagScheme::PerEnvironment,
            Some(cluster) => ImageTagScheme::PerCluster { cluster, container: String::from_str(service) },
        }
    }
}

/// The repository owner that holds the configuration documents.
pub fn config_owner() -> (r: &'static str)
    ensures
        r@ == "jrumjantsev"@,
{
    "jrumjantsev"
}

/// The repository that holds the configuration documents.
pub fn config_repo() -> (r: &'static str)
    ensures
        r@ == "config"@,
{
    "config"
}

pub open spec fn config_document_path_spec(service: Seq<char>) -> Seq<char> {
    "apps/"@ + service + "/config.json"@
}

/// The path of a service's configuration document in the configuration repository.
pub fn config_document_path(service: &str) -> (r: String)
    ensures
        r@ == config_document_path_spec(service@),
{
    let mut r = String::from_str("apps/");
    r.append(service);
    r.append("/config.json");
    r
}

pub open spec fn image_tag_path_spec(service: Seq<char>, env: Seq<char>, scheme: ImageTagScheme) -> Seq<char> {
    match scheme {
        ImageTagScheme::PerEnvironment => "/service/"@ + service + "/env/"@ + env + "/imageTag"@,
        ImageTagScheme::PerCluster { cluster, container } =>
            "/spec/workloads/"@ + service + "/clusters/"@ + cluster@ + "/envs/"@ + env
                + "/tracks/main/containers/"@ + container@ + "/imageTag"@,
    }
}

/// The JSON pointer of the image tag of `service` in environment `env`.
pub fn image_tag_path(service: &str, env: &str, scheme: &ImageTagScheme) -> (r: String)
    ensures
        r@ == image_tag_path_spec(service@, env@, *scheme),
{
    match scheme {
        ImageTagScheme::PerEnvironment => {
            let mut r = String::from_str("/service/");
            r.append(service);
            r.append("/env/");
            r.append(env);
            r.append("/imageTag");
            r
        },
        ImageTagScheme::PerCluster { cluster, container } => {
            let mut r = String::from_str("/spec/workloads/");
            r.append(service);
            r.append("/clusters/");
            r.append(cluster.as_str());
            r.append("/envs/");
            r.append(env);
            r.append("/tracks/main/containers/");
            r.append(container.as_str());
            r.append("/imageTag");
            r
        },
    }
}

/// The revision that an image tag `<prefix>-<revision>` names: what follows its last dash.
pub fn revision_from_image_tag(tag: &str) -> (r: Result<ExtractCommitShaResult, DeployError>)
    ensures
        match after_last(tag@, '-') {
            Some(rev) => r matches Ok(x) && x.commit_sha@ == rev,
            None => r matches Err(DeployError::TagWithoutRevision(t)) && t@ == tag@,
        },
{
    match text_after_last(tag, '-') {
        Some(commit_sha) => Ok(ExtractCommitShaResult { commit_sha }),
        None => Err(DeployError::TagWithoutRevision(String::from_str(tag))),
    }
}

/// The revision for what a lookup at `path` found: the image tag there, if any.
pub fn revision_at(found: Option<String>, path: &str) -> (r: Result<ExtractCommitShaResult, DeployError>)
    ensures
        match found {
            None => r matches Err(DeployError::PathNotFound(p)) && p@ == path@,
            Some(tag) => match after_last(tag@, '-') {
                Some(rev) => r matches Ok(x) && x.commit_sha@ == rev,
                None => r matches Err(DeployError::TagWithoutRevision(t)) && t@ == tag@,
            },
        },
{
    match found {
        None => Err(DeployError::PathNotFound(String::from_str(path))),
        Some(tag) => revision_from_image_tag(tag.as_str()),
    }
}

/// The revision deployed for `service` in `env`, read from the configuration
/// document `document`.
pub fn extract_commit_sha(document: &str, service: &str, env: &str, scheme: &ImageTagScheme) -> (r: Result<
    ExtractCommitShaResult,
    DeployError,
>)
    ensures
        !json_parses(document@) ==> r matches Err(DeployError::Upstream(_)),
        json_parses(document@) ==> {
            let path = image_tag_path_spec(service@, env@, *scheme);
            match json_str_at(document@, path) {
                None => r matches Err(DeployError::PathNotFound(p)) && p@ == path,
                Some(tag) => match after_last(tag, '-') {
                    Some(rev) => r matches Ok(x) && x.commit_sha@ == rev,
                    None => r matches Err(DeployError::TagWithoutRevision(t)) && t@ == tag,
                },
            }
        },
{
    match JsonDocument::parse(document) {
        Err(_) => Err(DeployError::Upstream(String::from_str("configuration document is not valid JSON"))),
        Ok(doc) => {
            let path = image_tag_path(service, env, scheme);
            let found = doc.str_at(path.as_str());
            revision_at(found, path.as_str())
        },
    }
}

} // verus!
