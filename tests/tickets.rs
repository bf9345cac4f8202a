use deploy_readiness::TicketExtractionService;

#[test]
fn extract_tickets_returns_nothing_without_a_match() {
    let ext = TicketExtractionService::Foo;
    assert!(ext.extract_tickets("").is_empty());
    assert!(ext.extract_tickets("Refactor the parser").is_empty());
    assert!(ext.extract_tickets("BAR-12 and FOO- and FOO12").is_empty());
}

#[test]
fn extract_tickets_is_case_insensitive_and_ordered() {
    let ext = TicketExtractionService::Foo;
    let keys = ext.extract_tickets("Fix FOO-123 and foo-45");
    assert_eq!(keys, vec!["FOO-123".to_string(), "foo-45".to_string()]);
    let keys = ext.extract_tickets("foo-45 before FOO-123");
    assert_eq!(keys, vec!["foo-45".to_string(), "FOO-123".to_string()]);
}

#[test]
fn extract_tickets_keeps_repeated_keys() {
    let ext = TicketExtractionService::Foo;
    let keys = ext.extract_tickets("FOO-1 FOO-1 fOo-2");
    assert_eq!(keys, vec!["FOO-1".to_string(), "FOO-1".to_string(), "fOo-2".to_string()]);
}

#[test]
fn extract_tickets_takes_at_most_six_digits() {
    let ext = TicketExtractionService::Foo;
    assert_eq!(ext.extract_tickets("FOO-1234567"), vec!["FOO-123456".to_string()]);
}

#[test]
fn extract_tickets_bar_family() {
    let ext = TicketExtractionService::Bar;
    assert_eq!(
        ext.extract_tickets("BAR-1771: done, see bar-1583 and FOO-9"),
        vec!["BAR-1771".to_string(), "bar-1583".to_string()]
    );
    assert_eq!(ext.pattern(), "[bB][aA][rR]-\\d{1,6}");
    assert_eq!(TicketExtractionService::Foo.pattern(), "[fF][oO][oO]-\\d{1,6}");
}

#[test]
fn project_families() {
    assert_eq!(TicketExtractionService::for_project("foo-web"), Some(TicketExtractionService::Foo));
    assert_eq!(TicketExtractionService::for_project("bar-web"), Some(TicketExtractionService::Bar));
    assert_eq!(TicketExtractionService::for_project("baz"), None);
}
