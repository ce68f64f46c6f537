//! End-to-end scenarios over the reconciliation engine.

use ghbu::disposition::{classify, Disposition, LocalObservation};
use ghbu::dispatch::{
    cleanup_targets, collect_results, dispatch_one, plan_operation, Operation, RepoTask,
    SyncOutcome, TransportOutcome,
};
use ghbu::inventory::{Inventory, RepoEntry};
use ghbu::pagination::inventory_from_pages;
use ghbu::repo::LocalRepo;
use ghbu::scope::Scope;

fn entry(name: &str, url: &str) -> RepoEntry {
    RepoEntry { name: name.to_string(), ssh_url: url.to_string() }
}

#[test]
fn scenario_two_new_repos_are_cloned() {
    // scope "user:alice", remote inventory {a: url_a, b: url_b}, empty
    // destination: two clone operations, mirrors under <base>/alice.
    let scope = Scope::for_user("alice".to_string());
    assert_eq!(scope.name, "alice");

    let mut inv = Inventory::new();
    inv.insert("a".to_string(), "url_a".to_string());
    inv.insert("b".to_string(), "url_b".to_string());
    assert_eq!(inv.len(), 2);

    let base = format!("/backups/{}", scope.name);
    let absent = LocalObservation { exists: false, is_dir: false, opens_as_store: false };

    let mut tasks: Vec<RepoTask> = Vec::new();
    for e in inv.entries() {
        let repo = LocalRepo::new(e.name.clone(), e.ssh_url.clone(), &base);
        let d = classify(&absent);
        assert_eq!(d, Disposition::New);
        assert_eq!(plan_operation(d, false), Operation::CloneMirror);
        tasks.push(RepoTask {
            name: repo.name().to_string(),
            disposition: d,
            cleanup_removed: false,
            transport: TransportOutcome::Completed { millis: 7 },
        });
    }

    let repo_a = LocalRepo::new("a".to_string(), "url_a".to_string(), &base);
    let repo_b = LocalRepo::new("b".to_string(), "url_b".to_string(), &base);
    assert_eq!(repo_a.display_path(), "/backups/alice/a");
    assert_eq!(repo_b.display_path(), "/backups/alice/b");

    let results = collect_results(&tasks);
    assert_eq!(results.len(), 2);
    for r in &results {
        assert_eq!(r.operation, Operation::CloneMirror);
        assert!(matches!(r.outcome, SyncOutcome::Success { millis: 7 }));
    }
}

#[test]
fn scenario_healthy_mirror_is_fetched_not_cloned() {
    // mirror `a` already healthy, remote unchanged: one fetch, zero clones.
    let healthy = LocalObservation { exists: true, is_dir: true, opens_as_store: true };
    let d = classify(&healthy);
    assert_eq!(d, Disposition::Healthy);
    let op = plan_operation(d, false);
    assert_eq!(op, Operation::FetchMirror);
    assert_ne!(op, Operation::CloneMirror);
}

#[test]
fn scenario_broken_mirror_is_removed_then_cloned() {
    // local `a` exists as a directory that is not a valid store, cleanup
    // enabled: classified broken, selected for removal, then cloned.
    let broken = LocalObservation { exists: true, is_dir: true, opens_as_store: false };
    let d = classify(&broken);
    assert_eq!(d, Disposition::Broken);

    let ds = vec![d];
    let targets = cleanup_targets(&ds, true);
    assert_eq!(targets, vec![0]);

    // The removal succeeded: the repository is cloned afresh this run.
    assert_eq!(plan_operation(d, true), Operation::CloneMirror);
}

#[test]
fn scenario_pages_of_twenty_five_and_empty() {
    // 20 items on page 1, 5 on page 2, empty page 3: inventory of 25,
    // no duplicates, 3 requests issued.
    let mut page1: Vec<RepoEntry> = Vec::new();
    for i in 0..20 {
        page1.push(entry(&format!("repo{i}"), &format!("url{i}")));
    }
    let mut page2: Vec<RepoEntry> = Vec::new();
    for i in 20..25 {
        page2.push(entry(&format!("repo{i}"), &format!("url{i}")));
    }
    let pages = vec![page1, page2, Vec::new()];
    let (inv, requests) = inventory_from_pages(&pages, 3);
    assert_eq!(requests, 3);
    assert_eq!(inv.len(), 25);
    for i in 0..25 {
        let url = inv.get(&format!("repo{i}")).expect("name enumerated");
        assert_eq!(url, &format!("url{i}"));
    }
}

#[test]
fn second_run_plans_no_clones() {
    // A successful first run leaves a previously-new mirror healthy: the
    // second run fetches it and clones nothing.
    let new_first = Disposition::New;
    let now_healthy = LocalObservation { exists: true, is_dir: true, opens_as_store: true };
    assert_eq!(plan_operation(new_first, false), Operation::CloneMirror);
    let second = classify(&now_healthy);
    assert_eq!(plan_operation(second, false), Operation::FetchMirror);

    // A mirror left invalid is skipped on both runs: still no clone.
    let invalid = LocalObservation { exists: true, is_dir: false, opens_as_store: false };
    assert_eq!(plan_operation(classify(&invalid), false), Operation::Skip);
}

#[test]
fn one_failure_leaves_other_results_untouched() {
    // Exactly one repository's transport fails: the others still succeed,
    // and the failing repository's reason appears only in its own result.
    let mk = |name: &str, t: TransportOutcome| RepoTask {
        name: name.to_string(),
        disposition: Disposition::New,
        cleanup_removed: false,
        transport: t,
    };
    let ok = |ms: u64| TransportOutcome::Completed { millis: ms };
    let boom = TransportOutcome::TransportFailure { reason: "connection reset".to_string() };

    let tasks = vec![mk("a", ok(1)), mk("b", boom), mk("c", ok(3))];
    let results = collect_results(&tasks);
    assert_eq!(results.len(), 3);
    assert!(matches!(results[0].outcome, SyncOutcome::Success { millis: 1 }));
    assert!(matches!(results[2].outcome, SyncOutcome::Success { millis: 3 }));
    match &results[1].outcome {
        SyncOutcome::Failure { reason } => assert_eq!(reason, "connection reset"),
        other => panic!("expected a failure, got {other:?}"),
    }

    // The same run with repository b healthy instead: a and c unchanged.
    let tasks2 = vec![mk("a", ok(1)), mk("b", ok(2)), mk("c", ok(3))];
    let results2 = collect_results(&tasks2);
    assert_eq!(results2[0].repo_name, results[0].repo_name);
    assert!(matches!(results2[0].outcome, SyncOutcome::Success { millis: 1 }));
    assert!(matches!(results2[2].outcome, SyncOutcome::Success { millis: 3 }));
}

#[test]
fn skipped_repositories_report_their_reason() {
    let dummy = TransportOutcome::Completed { millis: 0 };
    let invalid = RepoTask {
        name: "x".to_string(),
        disposition: Disposition::Invalid,
        cleanup_removed: false,
        transport: dummy.clone(),
    };
    let r = dispatch_one(&invalid);
    assert_eq!(r.operation, Operation::Skip);
    match &r.outcome {
        SyncOutcome::Failure { reason } => {
            assert_eq!(reason, "path exists, but is not a directory")
        },
        other => panic!("expected a failure, got {other:?}"),
    }

    let unresolved = RepoTask {
        name: "y".to_string(),
        disposition: Disposition::Broken,
        cleanup_removed: false,
        transport: dummy,
    };
    let r = dispatch_one(&unresolved);
    assert_eq!(r.operation, Operation::Skip);
    match &r.outcome {
        SyncOutcome::Failure { reason } => assert_eq!(reason, "broken repository was not removed"),
        other => panic!("expected a failure, got {other:?}"),
    }
}

#[test]
fn cleanup_never_selects_healthy_mirrors() {
    let ds = vec![
        Disposition::Healthy,
        Disposition::Broken,
        Disposition::New,
        Disposition::Broken,
        Disposition::Invalid,
    ];
    let targets = cleanup_targets(&ds, true);
    assert_eq!(targets, vec![1, 3]);
    for &i in &targets {
        assert_ne!(ds[i], Disposition::Healthy);
    }
    assert_eq!(cleanup_targets(&ds, false), Vec::<usize>::new());
}

#[test]
fn every_observation_gets_exactly_one_disposition() {
    for &exists in &[false, true] {
        for &is_dir in &[false, true] {
            for &opens in &[false, true] {
                let o = LocalObservation { exists, is_dir, opens_as_store: opens };
                let d = classify(&o);
                let expected = if !exists {
                    Disposition::New
                } else if !is_dir {
                    Disposition::Invalid
                } else if opens {
                    Disposition::Healthy
                } else {
                    Disposition::Broken
                };
                assert_eq!(d, expected);
            }
        }
    }
}
