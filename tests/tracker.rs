use deploy_readiness::{parse_search_response, DeployError, JiraServiceImpl, SEARCH_PAGE_SIZE};

fn service() -> JiraServiceImpl {
    JiraServiceImpl::new("https://jira.my-company.net".to_string(), "token".to_string())
}

#[test]
fn search_request_with_no_keys_is_refused() {
    let r = service().search_request(&vec![]);
    assert!(matches!(r, Err(DeployError::EmptyInput)));
}

#[test]
fn search_request_batches_all_keys() {
    let keys = vec!["BAR-1771".to_string(), "BAR-1583".to_string()];
    let q = service().search_request(&keys).unwrap();
    assert_eq!(q.url, "https://jira.my-company.net/rest/api/2/search");
    assert_eq!(q.authorization, "Bearer token");
    assert_eq!(q.jql, "key in (BAR-1771,BAR-1583)");
    assert_eq!(q.max_results, 100);
    assert_eq!(SEARCH_PAGE_SIZE, 100);
    let q = service().search_request(&vec!["FOO-1".to_string()]).unwrap();
    assert_eq!(q.jql, "key in (FOO-1)");
}

#[test]
fn parse_search_response_reads_issues() {
    let body = r#"{"issues": [
        {"key": "BAR-1771", "fields": {"status": {"name": "In Progress"}, "customfield_19899": {"value": "No-Go"}}},
        {"key": "BAR-1583", "fields": {"status": {"name": "Open"}}}
    ]}"#;
    let mut issues = parse_search_response(body).unwrap();
    issues.sort_by_key(|x| x.key.clone());
    assert_eq!(issues.len(), 2);
    assert_eq!(issues[0].key, "BAR-1583");
    assert_eq!(issues[0].status, "Open");
    assert_eq!(issues[0].ready, false);
    assert_eq!(issues[1].key, "BAR-1771");
    assert_eq!(issues[1].status, "In Progress");
    assert_eq!(issues[1].ready, false);
}

#[test]
fn parse_search_response_readiness_marker() {
    let body = r#"{"issues": [
        {"key": "FOO-42", "fields": {"status": {"name": "Done"}, "customfield_19899": {"value": "Go"}}},
        {"key": "FOO-43", "fields": {"status": 7, "customfield_19899": {"value": "go"}}}
    ]}"#;
    let issues = parse_search_response(body).unwrap();
    assert_eq!(issues[0].key, "FOO-42");
    assert_eq!(issues[0].status, "Done");
    assert!(issues[0].ready);
    assert_eq!(issues[1].key, "FOO-43");
    assert_eq!(issues[1].status, "");
    assert!(!issues[1].ready);
}

#[test]
fn parse_search_response_empty_list() {
    assert!(parse_search_response(r#"{"issues": []}"#).unwrap().is_empty());
}

#[test]
fn parse_search_response_malformed_answers() {
    assert!(matches!(parse_search_response("<html>"), Err(DeployError::Upstream(_))));
    assert!(matches!(parse_search_response(r#"{"total": 0}"#), Err(DeployError::Upstream(_))));
    assert!(matches!(parse_search_response(r#"{"issues": {}}"#), Err(DeployError::Upstream(_))));
    assert!(matches!(
        parse_search_response(r#"{"issues": [{"fields": {}}]}"#),
        Err(DeployError::Upstream(_))
    ));
}
