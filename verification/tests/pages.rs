//! Page decoding and the enumeration engine's stepping behavior.

use ghbu::inventory::RepoEntry;
use ghbu::json::parse_page;
use ghbu::pagination::{
    backoff_millis, classify_status, inventory_from_pages, Enumeration, NextStep, PageOutcome,
    StatusClass,
};
use ghbu::errors::FetchError;

#[test]
fn a_page_of_objects_yields_its_entries() {
    let body = r#"[
        {"name": "a", "ssh_url": "git@example.com:alice/a.git", "fork": false},
        {"name": "b", "ssh_url": "git@example.com:alice/b.git"}
    ]"#;
    match parse_page(body) {
        PageOutcome::Page(entries) => {
            assert_eq!(entries.len(), 2);
            assert_eq!(entries[0].name, "a");
            assert_eq!(entries[0].ssh_url, "git@example.com:alice/a.git");
            assert_eq!(entries[1].name, "b");
            assert_eq!(entries[1].ssh_url, "git@example.com:alice/b.git");
        },
        other => panic!("expected a page, got {other:?}"),
    }
}

#[test]
fn objects_missing_a_field_are_skipped() {
    let body = r#"[
        {"name": "only-name"},
        {"ssh_url": "only-url"},
        {"name": "whole", "ssh_url": "url"},
        {"name": 7, "ssh_url": "url"}
    ]"#;
    match parse_page(body) {
        PageOutcome::Page(entries) => {
            assert_eq!(entries.len(), 1);
            assert_eq!(entries[0].name, "whole");
            assert_eq!(entries[0].ssh_url, "url");
        },
        other => panic!("expected a page, got {other:?}"),
    }
}

#[test]
fn an_empty_array_is_the_last_page() {
    assert!(matches!(parse_page("[]"), PageOutcome::Last));
    assert!(matches!(parse_page("  [ ]  "), PageOutcome::Last));
}

#[test]
fn malformed_bodies_are_retryable_never_terminal() {
    assert!(matches!(parse_page("{\"message\": \"oops\"}"), PageOutcome::Retryable));
    assert!(matches!(parse_page("not json at all"), PageOutcome::Retryable));
    assert!(matches!(parse_page(""), PageOutcome::Retryable));
}

#[test]
fn statuses_classify_into_use_retry_abandon() {
    assert_eq!(classify_status(200), StatusClass::Usable);
    assert_eq!(classify_status(226), StatusClass::Usable);
    assert_eq!(classify_status(401), StatusClass::Abandon);
    assert_eq!(classify_status(404), StatusClass::Abandon);
    assert_eq!(classify_status(500), StatusClass::Retry);
    assert_eq!(classify_status(503), StatusClass::Retry);
    assert_eq!(classify_status(301), StatusClass::Retry);
}

#[test]
fn pages_advance_and_the_empty_page_finishes() {
    let mut en = Enumeration::new(2);
    assert_eq!(en.current_page(), 1);
    let page = vec![RepoEntry { name: "a".to_string(), ssh_url: "u".to_string() }];
    let ns = en.step(&PageOutcome::Page(page));
    assert_eq!(ns, NextStep::Request { page: 2, backoff_millis: 0 });
    assert_eq!(en.current_page(), 2);
    let ns = en.step(&PageOutcome::Last);
    assert_eq!(ns, NextStep::Done);
    let inv = en.into_inventory();
    assert_eq!(inv.len(), 1);
    assert_eq!(inv.get(&"a".to_string()), Some(&"u".to_string()));
}

#[test]
fn retries_back_off_and_then_abort() {
    let mut en = Enumeration::new(2);
    let ns = en.step(&PageOutcome::Retryable);
    assert_eq!(ns, NextStep::Request { page: 1, backoff_millis: 100 });
    let ns = en.step(&PageOutcome::Retryable);
    assert_eq!(ns, NextStep::Request { page: 1, backoff_millis: 200 });
    let ns = en.step(&PageOutcome::Retryable);
    assert_eq!(ns, NextStep::Abort(FetchError::RetryBudgetExhausted { page: 1 }));
}

#[test]
fn a_successful_page_replenishes_the_retry_budget() {
    let mut en = Enumeration::new(1);
    let ns = en.step(&PageOutcome::Retryable);
    assert_eq!(ns, NextStep::Request { page: 1, backoff_millis: 100 });
    let page = vec![RepoEntry { name: "a".to_string(), ssh_url: "u".to_string() }];
    en.step(&PageOutcome::Page(page));
    // The budget is whole again for page 2.
    let ns = en.step(&PageOutcome::Retryable);
    assert_eq!(ns, NextStep::Request { page: 2, backoff_millis: 100 });
}

#[test]
fn a_fatal_failure_aborts_at_once() {
    let mut en = Enumeration::new(5);
    let ns = en.step(&PageOutcome::Fatal);
    assert_eq!(ns, NextStep::Abort(FetchError::NonRetryable { page: 1 }));
}

#[test]
fn an_immediately_empty_inventory_takes_one_request() {
    let pages: Vec<Vec<RepoEntry>> = vec![Vec::new()];
    let (inv, requests) = inventory_from_pages(&pages, 3);
    assert_eq!(requests, 1);
    assert_eq!(inv.len(), 0);
}

#[test]
fn enumeration_stops_with_the_supplied_pages() {
    let one = |n: &str| vec![RepoEntry { name: n.to_string(), ssh_url: "u".to_string() }];
    let pages = vec![one("a"), one("b")];
    let (inv, requests) = inventory_from_pages(&pages, 3);
    assert_eq!(requests, 2);
    assert_eq!(inv.len(), 2);
}

#[test]
fn backoff_doubles_up_to_its_cap() {
    assert_eq!(backoff_millis(0), 100);
    assert_eq!(backoff_millis(1), 200);
    assert_eq!(backoff_millis(2), 400);
    assert_eq!(backoff_millis(6), 6400);
    assert_eq!(backoff_millis(7), 12800);
    assert_eq!(backoff_millis(30), 12800);
}
