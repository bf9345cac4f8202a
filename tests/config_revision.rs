use deploy_readiness::{
    config_document_path, config_owner, config_repo, extract_commit_sha, image_tag_path,
    revision_from_image_tag, DeployError, ImageTagScheme,
};

#[test]
fn revision_is_what_follows_the_last_dash() {
    let r = revision_from_image_tag("release-abc123").unwrap();
    assert_eq!(r.commit_sha, "abc123");
    let r = revision_from_image_tag("foo-1-abc111").unwrap();
    assert_eq!(r.commit_sha, "abc111");
    let r = revision_from_image_tag("trailing-").unwrap();
    assert_eq!(r.commit_sha, "");
}

#[test]
fn tag_without_dash_is_an_error() {
    match revision_from_image_tag("foo123") {
        Err(DeployError::TagWithoutRevision(t)) => assert_eq!(t, "foo123"),
        other => panic!("unexpected {:?}", other),
    }
}

#[test]
fn config_document_location() {
    assert_eq!(config_owner(), "jrumjantsev");
    assert_eq!(config_repo(), "config");
    assert_eq!(config_document_path("foo"), "apps/foo/config.json");
}

#[test]
fn image_tag_paths_of_both_schemes() {
    assert_eq!(image_tag_path("foo", "dev", &ImageTagScheme::PerEnvironment), "/service/foo/env/dev/imageTag");
    let scheme = ImageTagScheme::PerCluster { cluster: "eu1".to_string(), container: "web".to_string() };
    assert_eq!(
        image_tag_path("foo", "prod", &scheme),
        "/spec/workloads/foo/clusters/eu1/envs/prod/tracks/main/containers/web/imageTag"
    );
}

#[test]
fn extract_commit_sha_reads_the_image_tag() {
    let doc = r#"{"service": {"foo": {"env": {"dev": {"imageTag": "foo-abc123"}}}}}"#;
    let r = extract_commit_sha(doc, "foo", "dev", &ImageTagScheme::PerEnvironment).unwrap();
    assert_eq!(r.commit_sha, "abc123");
}

#[test]
fn extract_commit_sha_per_cluster() {
    let doc = r#"{"spec": {"workloads": {"foo": {"clusters": {"eu1": {"envs": {"prod": {"tracks": {"main": {"containers": {"web": {"imageTag": "web-9-def222"}}}}}}}}}}}}"#;
    let scheme = ImageTagScheme::PerCluster { cluster: "eu1".to_string(), container: "web".to_string() };
    let r = extract_commit_sha(doc, "foo", "prod", &scheme).unwrap();
    assert_eq!(r.commit_sha, "def222");
}

#[test]
fn extract_commit_sha_missing_path() {
    let doc = r#"{"service": {"foo": {"env": {"dev": {"imageTag": "foo-abc123"}}}}}"#;
    match extract_commit_sha(doc, "foo", "prod", &ImageTagScheme::PerEnvironment) {
        Err(DeployError::PathNotFound(p)) => assert_eq!(p, "/service/foo/env/prod/imageTag"),
        other => panic!("unexpected {:?}", other),
    }
}

#[test]
fn extract_commit_sha_tag_without_dash() {
    let doc = r#"{"service": {"foo": {"env": {"dev": {"imageTag": "foo123"}}}}}"#;
    match extract_commit_sha(doc, "foo", "dev", &ImageTagScheme::PerEnvironment) {
        Err(DeployError::TagWithoutRevision(t)) => assert_eq!(t, "foo123"),
        other => panic!("unexpected {:?}", other),
    }
}

#[test]
fn extract_commit_sha_rejects_malformed_documents() {
    let r = extract_commit_sha("{not json", "foo", "dev", &ImageTagScheme::PerEnvironment);
    assert!(matches!(r, Err(DeployError::Upstream(_))));
}

#[test]
fn scheme_follows_the_cluster() {
    assert!(matches!(ImageTagScheme::for_cluster(None, "foo"), ImageTagScheme::PerEnvironment));
    match ImageTagScheme::for_cluster(Some("eu1".to_string()), "foo") {
        ImageTagScheme::PerCluster { cluster, container } => {
            assert_eq!(cluster, "eu1");
            assert_eq!(container, "foo");
        }
        other => panic!("unexpected {:?}", other),
    }
}
