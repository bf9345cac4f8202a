use deploy_readiness::{
    after_answer, assemble_report, start_scan, ticket_info, DeployError, GetCommitResult,
    JiraTicketInfo, ScanStep, TicketExtractionService, Timestamp,
};

fn commit(message: &str, title: &str, body: &str) -> GetCommitResult {
    GetCommitResult {
        date_time: Timestamp { seconds: 1, nanos: 0 },
        author_email: "dev@example.com".to_string(),
        sha: "abc".to_string(),
        full_message: message.to_string(),
        pr_title: title.to_string(),
        pr_body: body.to_string(),
    }
}

fn ticket(key: &str, ready: bool) -> JiraTicketInfo {
    JiraTicketInfo { key: key.to_string(), status: "Done".to_string(), ready }
}

fn lookup(step: &ScanStep) -> (usize, Vec<String>) {
    match step {
        ScanStep::Lookup(l) => (l.field, l.keys.clone()),
        other => panic!("expected a lookup, got {:?}", other),
    }
}

#[test]
fn scan_starts_at_the_first_field_with_keys() {
    let ext = TicketExtractionService::Foo;
    let c = commit("Fix FOO-1", "FOO-2", "FOO-3");
    assert_eq!(lookup(&start_scan(&ext, &c)), (0, vec!["FOO-1".to_string()]));
    let c = commit("Fix a bug", "", "Closes FOO-3 and FOO-4");
    assert_eq!(lookup(&start_scan(&ext, &c)), (2, vec!["FOO-3".to_string(), "FOO-4".to_string()]));
    let c = commit("Fix a bug", "no ticket", "");
    assert!(matches!(start_scan(&ext, &c), ScanStep::Exhausted));
}

#[test]
fn failed_lookup_moves_to_the_next_field() {
    let ext = TicketExtractionService::Foo;
    let c = commit("Fix FOO-1", "nothing here", "FOO-3");
    let failed = Err(DeployError::Upstream("tracker down".to_string()));
    let next = after_answer(&ext, &c, 0, failed);
    assert_eq!(lookup(&next), (2, vec!["FOO-3".to_string()]));
    let failed = Err(DeployError::Upstream("tracker down".to_string()));
    assert!(matches!(after_answer(&ext, &c, 2, failed), ScanStep::Exhausted));
}

#[test]
fn answered_lookup_ends_the_scan() {
    let ext = TicketExtractionService::Foo;
    let c = commit("Fix FOO-1", "FOO-2", "");
    match after_answer(&ext, &c, 0, Ok(vec![ticket("FOO-1", true)])) {
        ScanStep::Found(v) => {
            assert_eq!(v.len(), 1);
            assert_eq!(v[0].key, "FOO-1");
        }
        other => panic!("unexpected {:?}", other),
    }
    assert!(matches!(after_answer(&ext, &c, 0, Ok(vec![])), ScanStep::Found(v) if v.is_empty()));
}

#[test]
fn last_ticket_wins_and_title_is_the_text() {
    let c = commit("Fix FOO-1 FOO-2", "Release notes", "");
    let t = ticket_info(&c, &vec![ticket("FOO-1", true), ticket("FOO-2", false)]);
    assert_eq!(t.ticket_key, "FOO-2");
    assert!(!t.ticket_ready);
    assert_eq!(t.commit_message, "Release notes");
    assert_eq!(t.commit_sha, "abc");
    assert_eq!(t.author_email, "dev@example.com");
    let t = ticket_info(&c, &vec![]);
    assert_eq!(t.ticket_key, "");
    assert!(!t.ticket_ready);
}

#[test]
fn report_keeps_commit_order() {
    let commits = vec![commit("a", "first", ""), commit("b", "second", "")];
    let found = vec![vec![], vec![ticket("FOO-9", true)]];
    let p = assemble_report("owner", "repo", "base", None, &commits, &found);
    assert_eq!(p.owner, "owner");
    assert_eq!(p.repo, "repo");
    assert_eq!(p.last_commit_in_production, "base");
    assert_eq!(p.commit_sha_to_release, None);
    assert_eq!(p.ticket_infos.len(), 2);
    assert_eq!(p.ticket_infos[0].commit_message, "first");
    assert_eq!(p.ticket_infos[0].ticket_key, "");
    assert_eq!(p.ticket_infos[1].commit_message, "second");
    assert_eq!(p.ticket_infos[1].ticket_key, "FOO-9");
    assert!(p.ticket_infos[1].ticket_ready);
}
