use deploy_readiness::{
    Config, PrintMessageFromExtractTicketsResultPayload, ResultPrinterServiceImpl, TicketInfo,
};

fn printer() -> ResultPrinterServiceImpl {
    ResultPrinterServiceImpl::new(Config {
        github_token: "abc".to_string(),
        github_server: "https://github.com".to_string(),
        jira_token: "def".to_string(),
        jira_server: "https://jira".to_string(),
        versions_live: "https://live".to_string(),
    })
}

fn info(sha: &str, email: &str, key: &str, ready: bool) -> TicketInfo {
    TicketInfo {
        commit_sha: sha.to_string(),
        commit_message: "Add login".to_string(),
        author_email: email.to_string(),
        ticket_key: key.to_string(),
        ticket_ready: ready,
    }
}

#[test]
fn render_header_and_lines() {
    let payload = PrintMessageFromExtractTicketsResultPayload {
        owner: "acme".to_string(),
        repo: "shop".to_string(),
        ticket_infos: vec![
            info("0123456789abcdef", "jane.doe@example.com", "FOO-42", true),
            info("abc", "nobody", "", false),
        ],
        last_commit_in_production: "abc111".to_string(),
        commit_sha_to_release: None,
    };
    let lines = printer().render(&payload);
    assert_eq!(lines.len(), 3);
    assert_eq!(lines[0], "https://github.com/acme/shop/compare/abc111...master\n");
    assert_eq!(
        lines[1],
        "\u{1F34F} @jane.doe https://github.com/acme/shop/commit/0123456789abcdef (0123456) - [FOO-42] Add login"
    );
    assert_eq!(lines[2], "\u{1F34E} @nobody https://github.com/acme/shop/commit/abc (abc) - [] Add login");
}

#[test]
fn render_with_explicit_target() {
    let payload = PrintMessageFromExtractTicketsResultPayload {
        owner: "acme".to_string(),
        repo: "shop".to_string(),
        ticket_infos: vec![],
        last_commit_in_production: "abc111".to_string(),
        commit_sha_to_release: Some("def222".to_string()),
    };
    let lines = printer().render(&payload);
    assert_eq!(lines, vec!["https://github.com/acme/shop/compare/abc111...def222\n".to_string()]);
}
