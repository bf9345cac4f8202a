use deploy_readiness::{Config, VersionService};

#[test]
fn test_new() {
    let config = Config {
        github_token: "abc".to_string(),
        github_server: "http://github".to_string(),
        jira_token: "def".to_string(),
        jira_server: "http:://jira".to_string(),
        versions_live: "http://live".to_string(),
    };
    let service = VersionService::new(config);
    assert_eq!(service.config.github_server, "http://github");
    assert_eq!(service.config.jira_server, "http:://jira");
    assert_eq!(service.config.versions_live, "http://live");
    assert_eq!(service.config.github_token, "abc");
    assert_eq!(service.config.jira_token, "def");
}
