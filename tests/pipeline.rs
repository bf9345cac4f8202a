use deploy_readiness::{
    CommitPayloads, Config, DeployError, Event, GithubSettings, ImageTagScheme,
    InfoGatheringService, JiraServiceImpl, PipelineSettings, PrintMessageFromExtractTicketsResultPayload,
    Request, ResultPrinterServiceImpl, TicketExtractionService, Timestamp,
};

fn settings() -> PipelineSettings {
    PipelineSettings {
        owner: "MainAppServices".to_string(),
        service: "foo".to_string(),
        env: "prod".to_string(),
        scheme: ImageTagScheme::PerEnvironment,
        tickets: TicketExtractionService::Foo,
        github: GithubSettings { base_url: "https://gh".to_string(), token: "t".to_string() },
        jira: JiraServiceImpl::new("https://jira".to_string(), "j".to_string()),
        target: None,
    }
}

fn commit_body(date: &str, email: &str, message: &str) -> String {
    format!(
        r#"{{"commit": {{"committer": {{"date": "{}"}}, "author": {{"email": "{}"}}, "message": "{}"}}}}"#,
        date, email, message
    )
}

const CONFIG: &str = r#"{"service": {"foo": {"env": {"prod": {"imageTag": "foo-1-abc111"}}}}}"#;
const TRACKER: &str = r#"{"issues": [{"key": "FOO-42", "fields": {"status": {"name": "Done"}, "customfield_19899": {"value": "Go"}}}]}"#;

/// Runs the scenario against fixed upstream answers and returns the report.
fn run_scenario() -> PrintMessageFromExtractTicketsResultPayload {
    let mut p = InfoGatheringService::new(settings());
    match p.step(None) {
        Request::FetchConfigDocument { owner, repo, path } => {
            assert_eq!(owner, "jrumjantsev");
            assert_eq!(repo, "config");
            assert_eq!(path, "apps/foo/config.json");
        }
        other => panic!("unexpected {:?}", other),
    }
    match p.step(Some(Event::ConfigDocument(Ok(CONFIG.to_string())))) {
        Request::FetchCommit { sha, url } => {
            assert_eq!(sha, "abc111");
            assert_eq!(url, "https://gh/repos/MainAppServices/foo/commits/abc111");
        }
        other => panic!("unexpected {:?}", other),
    }
    let baseline = commit_body("2024-01-01T00:00:00Z", "ops@example.com", "Deploy");
    match p.step(Some(Event::Commit(Ok(baseline)))) {
        Request::ListCommitsSince { owner, repo, since } => {
            assert_eq!(owner, "MainAppServices");
            assert_eq!(repo, "foo");
            assert_eq!(since, Timestamp { seconds: 1704067200, nanos: 0 });
        }
        other => panic!("unexpected {:?}", other),
    }
    let listed = vec!["abc111".to_string(), "def222".to_string()];
    match p.step(Some(Event::CommitsListed(Ok(listed)))) {
        Request::FetchCommitsWithRequests(f) => {
            assert_eq!(f.len(), 2);
            assert_eq!(f[1].sha, "def222");
            assert_eq!(f[1].commit_url, "https://gh/repos/MainAppServices/foo/commits/def222");
            assert_eq!(
                f[1].request_url,
                "https://gh/search/issues?q=SHA:def222+repo:MainAppServices/foo+type:pr&sort=created&order=asc"
            );
        }
        other => panic!("unexpected {:?}", other),
    }
    let payloads = vec![
        CommitPayloads {
            commit_body: commit_body("2024-01-01T00:00:00Z", "ops@example.com", "Deploy"),
            request_body: r#"{"items": []}"#.to_string(),
        },
        CommitPayloads {
            commit_body: commit_body("2024-01-02T10:00:00Z", "jane@example.com", "Fix FOO-42 bug"),
            request_body: r#"{"items": [{"title": "Fix the bug", "body": ""}]}"#.to_string(),
        },
    ];
    match p.step(Some(Event::CommitsWithRequests(Ok(payloads)))) {
        Request::QueryTickets(q) => assert_eq!(q.jql, "key in (FOO-42)"),
        other => panic!("unexpected {:?}", other),
    }
    let report = match p.step(Some(Event::TicketAnswer(Ok(TRACKER.to_string())))) {
        Request::Present(report) => report,
        other => panic!("unexpected {:?}", other),
    };
    assert!(p.is_finished());
    report
}

fn printer() -> ResultPrinterServiceImpl {
    ResultPrinterServiceImpl::new(Config {
        github_token: String::new(),
        github_server: "https://github.com".to_string(),
        jira_token: String::new(),
        jira_server: String::new(),
        versions_live: String::new(),
    })
}

#[test]
fn end_to_end_report_for_one_ready_commit() {
    let report = run_scenario();
    assert_eq!(report.last_commit_in_production, "abc111");
    assert_eq!(report.ticket_infos.len(), 1);
    let t = &report.ticket_infos[0];
    assert_eq!(t.commit_sha, "def222");
    assert_eq!(t.ticket_key, "FOO-42");
    assert!(t.ticket_ready);
    let lines = printer().render(&report);
    assert_eq!(lines[0], "https://github.com/MainAppServices/foo/compare/abc111...master\n");
    assert!(lines[1].starts_with("\u{1F34F} @jane "));
    assert!(lines[1].ends_with("(def222) - [FOO-42] Fix the bug"));
}

#[test]
fn pipeline_is_idempotent() {
    let first = printer().render(&run_scenario());
    let second = printer().render(&run_scenario());
    assert_eq!(first, second);
}

#[test]
fn tracker_failure_falls_through_to_the_next_field() {
    let mut p = InfoGatheringService::new(settings());
    p.step(None);
    p.step(Some(Event::ConfigDocument(Ok(CONFIG.to_string()))));
    p.step(Some(Event::Commit(Ok(commit_body("2024-01-01T00:00:00Z", "a@b", "x")))));
    p.step(Some(Event::CommitsListed(Ok(vec!["def222".to_string()]))));
    let payloads = vec![CommitPayloads {
        commit_body: commit_body("2024-01-02T00:00:00Z", "a@b", "Fix FOO-1"),
        request_body: r#"{"items": [{"title": "FOO-2 title", "body": "FOO-3"}]}"#.to_string(),
    }];
    match p.step(Some(Event::CommitsWithRequests(Ok(payloads)))) {
        Request::QueryTickets(q) => assert_eq!(q.jql, "key in (FOO-1)"),
        other => panic!("unexpected {:?}", other),
    }
    match p.step(Some(Event::TicketAnswer(Err(DeployError::Upstream("503".to_string()))))) {
        Request::QueryTickets(q) => assert_eq!(q.jql, "key in (FOO-2)"),
        other => panic!("unexpected {:?}", other),
    }
    match p.step(Some(Event::TicketAnswer(Ok("not json".to_string())))) {
        Request::QueryTickets(q) => assert_eq!(q.jql, "key in (FOO-3)"),
        other => panic!("unexpected {:?}", other),
    }
    match p.step(Some(Event::TicketAnswer(Err(DeployError::Upstream("503".to_string()))))) {
        Request::Present(report) => {
            assert_eq!(report.ticket_infos.len(), 1);
            assert_eq!(report.ticket_infos[0].ticket_key, "");
            assert!(!report.ticket_infos[0].ticket_ready);
        }
        other => panic!("unexpected {:?}", other),
    }
}

#[test]
fn pipeline_aborts_on_stage_failures() {
    let mut p = InfoGatheringService::new(settings());
    p.step(None);
    match p.step(Some(Event::ConfigDocument(Err(DeployError::Upstream("404".to_string()))))) {
        Request::Abort(DeployError::Upstream(m)) => assert_eq!(m, "404"),
        other => panic!("unexpected {:?}", other),
    }
    assert!(p.is_finished());

    let mut p = InfoGatheringService::new(settings());
    p.step(None);
    p.step(Some(Event::ConfigDocument(Ok(CONFIG.to_string()))));
    let bad = commit_body("not a date", "a@b", "x");
    assert!(matches!(
        p.step(Some(Event::Commit(Ok(bad)))),
        Request::Abort(DeployError::TimestampParse(_))
    ));

    let mut p = InfoGatheringService::new(settings());
    p.step(None);
    p.step(Some(Event::ConfigDocument(Ok(CONFIG.to_string()))));
    p.step(Some(Event::Commit(Ok(commit_body("2024-01-01T00:00:00Z", "a@b", "x")))));
    p.step(Some(Event::CommitsListed(Ok(vec!["a".to_string(), "b".to_string()]))));
    let one = vec![CommitPayloads { commit_body: commit_body("2024-01-02T00:00:00Z", "a@b", "x"), request_body: "{}".to_string() }];
    assert!(matches!(p.step(Some(Event::CommitsWithRequests(Ok(one)))), Request::Abort(DeployError::Upstream(_))));

    let mut p = InfoGatheringService::new(settings());
    assert!(matches!(p.step(Some(Event::Commit(Ok(String::new())))), Request::Abort(DeployError::Upstream(_))));
}

#[test]
fn pipeline_with_no_later_commits_presents_an_empty_report() {
    let mut p = InfoGatheringService::new(settings());
    p.step(None);
    p.step(Some(Event::ConfigDocument(Ok(CONFIG.to_string()))));
    p.step(Some(Event::Commit(Ok(commit_body("2024-01-01T00:00:00Z", "a@b", "x")))));
    p.step(Some(Event::CommitsListed(Ok(vec![]))));
    match p.step(Some(Event::CommitsWithRequests(Ok(vec![])))) {
        Request::Present(report) => assert!(report.ticket_infos.is_empty()),
        other => panic!("unexpected {:?}", other),
    }
}
