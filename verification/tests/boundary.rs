//! Scope selection, configuration errors, paths, credentials, and report
//! formatting.

use ghbu::credentials::credential_plan;
use ghbu::dispatch::plan_fetch;
use ghbu::errors::ConfigError;
use ghbu::inventory::Inventory;
use ghbu::repo::{plan_base_dir, BaseDirPlan, LocalRepo};
use ghbu::report::{decimal_string, format_secs};
use ghbu::scope::{require_token, select_scope, Scope};

#[test]
fn a_user_scope_queries_owned_repositories() {
    let s = Scope::for_user("alice".to_string());
    assert_eq!(s.name, "alice");
    assert_eq!(s.endpoint, "user/repos");
    assert_eq!(s.query.0, "affiliation");
    assert_eq!(s.query.1, "owner");
    assert_eq!(s.api_url(), "https://api.github.com/user/repos");
}

#[test]
fn an_org_scope_queries_all_repository_types() {
    let s = Scope::for_org("acme".to_string());
    assert_eq!(s.name, "acme");
    assert_eq!(s.endpoint, "orgs/acme/repos");
    assert_eq!(s.query.0, "type");
    assert_eq!(s.query.1, "all");
    assert_eq!(s.api_url(), "https://api.github.com/orgs/acme/repos");
}

#[test]
fn exactly_one_scope_must_be_selected() {
    let both = select_scope(Some("u".to_string()), Some("o".to_string()));
    match both {
        Err(e) => {
            assert_eq!(e, ConfigError::ConflictingScopeSelection);
            assert_eq!(e.message(), "provide either user or org, but not both");
        },
        Ok(_) => panic!("both scopes must be rejected"),
    }
    let neither = select_scope(None, None);
    match neither {
        Err(e) => {
            assert_eq!(e, ConfigError::MissingScopeSelection);
            assert_eq!(e.message(), "provide either user or org, but not neither");
        },
        Ok(_) => panic!("no scope must be rejected"),
    }
    let user = select_scope(Some("alice".to_string()), None).expect("a user scope");
    assert_eq!(user.endpoint, "user/repos");
    let org = select_scope(None, Some("acme".to_string())).expect("an org scope");
    assert_eq!(org.endpoint, "orgs/acme/repos");
}

#[test]
fn a_missing_token_is_a_configuration_error() {
    match require_token(None) {
        Err(e) => {
            assert_eq!(e, ConfigError::MissingToken);
            assert_eq!(e.message(), "missing environment variable GITHUB_TOKEN");
        },
        Ok(_) => panic!("a missing token must be rejected"),
    }
    assert_eq!(require_token(Some("s3cret".to_string())), Ok("s3cret".to_string()));
}

#[test]
fn the_destination_must_be_a_directory_or_absent() {
    assert_eq!(plan_base_dir(true, true), Ok(BaseDirPlan::UseExisting));
    assert_eq!(plan_base_dir(false, false), Ok(BaseDirPlan::Create));
    match plan_base_dir(true, false) {
        Err(e) => {
            assert_eq!(e, ConfigError::DestinationNotADirectory);
            assert_eq!(e.message(), "path exists, but is not a directory");
        },
        Ok(_) => panic!("a non-directory destination must be rejected"),
    }
}

#[test]
fn mirror_paths_join_base_and_name() {
    let r = LocalRepo::new("proj".to_string(), "git@example.com:alice/proj.git".to_string(),
        "/backups/alice");
    assert_eq!(r.name(), "proj");
    assert_eq!(r.ssh_url(), "git@example.com:alice/proj.git");
    assert_eq!(r.display_path(), "/backups/alice/proj");
}

#[test]
fn existing_dir_reflects_the_filesystem() {
    // "" joined with "" is "/", the root directory, which exists.
    let root = LocalRepo::new(String::new(), String::new(), "");
    assert!(root.existing_dir());
    let absent = LocalRepo::new("no-such-mirror".to_string(), String::new(),
        "/no-such-base-dir-for-mirrors");
    assert!(!absent.existing_dir());
}

#[test]
fn a_challenge_without_username_fails_with_the_url() {
    let r = credential_plan("git@example.com:alice/a.git", None);
    match r {
        Err(e) => {
            assert_eq!(e.url, "git@example.com:alice/a.git");
            assert_eq!(
                e.message(),
                "cannot determine username from URL git@example.com:alice/a.git"
            );
        },
        Ok(_) => panic!("a challenge without username must fail"),
    }
    let r = credential_plan("url", Some("git"));
    assert_eq!(r.unwrap(), "git");
}

#[test]
fn fetch_follows_head_and_only_head() {
    assert_eq!(plan_fetch(true, Some("main")), Ok("main"));
    match plan_fetch(false, Some("main")) {
        Err(m) => assert_eq!(m, "HEAD does not refer to a branch"),
        Ok(_) => panic!("a detached HEAD must not be fetched"),
    }
    match plan_fetch(true, None) {
        Err(m) => assert_eq!(m, "unable to get branch for HEAD"),
        Ok(_) => panic!("an unreadable branch name must not be fetched"),
    }
}

#[test]
fn durations_format_as_seconds_and_millis() {
    assert_eq!(format_secs(0), "0.0s");
    assert_eq!(format_secs(1005), "1.5s");
    assert_eq!(format_secs(12345), "12.345s");
    assert_eq!(format_secs(999), "0.999s");
    assert_eq!(format_secs(60000), "60.0s");
    assert_eq!(decimal_string(0), "0");
    assert_eq!(decimal_string(10), "10");
    assert_eq!(decimal_string(18446744073709551615), "18446744073709551615");
}

#[test]
fn entries_keep_first_insertion_order() {
    let mut inv = Inventory::new();
    inv.insert("b".to_string(), "url_b1".to_string());
    inv.insert("a".to_string(), "url_a".to_string());
    inv.insert("b".to_string(), "url_b2".to_string());
    let es = inv.entries();
    assert_eq!(es.len(), 2);
    assert_eq!(es[0].name, "b");
    assert_eq!(es[0].ssh_url, "url_b2");
    assert_eq!(es[1].name, "a");
    assert_eq!(es[1].ssh_url, "url_a");
}

#[test]
fn later_pages_overwrite_earlier_entries_of_the_same_name() {
    let mut inv = Inventory::new();
    inv.insert("a".to_string(), "old".to_string());
    inv.insert("b".to_string(), "kept".to_string());
    inv.insert("a".to_string(), "new".to_string());
    assert_eq!(inv.len(), 2);
    assert_eq!(inv.get(&"a".to_string()), Some(&"new".to_string()));
    assert_eq!(inv.get(&"b".to_string()), Some(&"kept".to_string()));
    assert_eq!(inv.get(&"c".to_string()), None);
}
