//! Cleanup and sync dispatch: which operation each classified repository
//! gets, which mirrors cleanup may remove, and how per-repository results
//! are collected with partial-failure isolation.

use vstd::prelude::*;
use crate::disposition::Disposition;

verus! {

/// The operation the dispatcher performs for one repository.
#[derive(Clone, Copy, Debug, PartialEq, Eq, Structural)]
pub enum Operation {
    /// Create a fresh bare mirror at the mirror path.
    CloneMirror,
    /// Incrementally update the existing healthy mirror.
    FetchMirror,
    /// Touch nothing; report only.
    Skip,
}

/// What the git transport reported for one executed operation.
#[derive(Clone, Debug)]
pub enum TransportOutcome {
    /// The operation finished, in the given wall-clock time.
    Completed { millis: u64 },
    /// The operation failed, with the transport's reason.
    TransportFailure { reason: String },
}

/// The mathematical content of a `TransportOutcome`.
pub enum TransportOutcomeView {
    Completed { millis: u64 },
    TransportFailure { reason: Seq<char> },
}

impl View for TransportOutcome {
    type V = TransportOutcomeView;

    open spec fn view(&self) -> TransportOutcomeView {
        match self {
            TransportOutcome::Completed { millis } => TransportOutcomeView::Completed {
                millis: *millis,
            },
            TransportOutcome::TransportFailure { reason } => (
            TransportOutcomeView::TransportFailure { reason: reason@ }),
        }
    }
}

/// How one repository's operation ended.
#[derive(Clone, Debug)]
pub enum SyncOutcome {
    /// The operation succeeded, in the given wall-clock time.
    Success { millis: u64 },
    /// The operation failed or was skipped, with the reason.
    Failure { reason: String },
}

/// The mathematical content of a `SyncOutcome`.
pub enum SyncOutcomeView {
    Success { millis: u64 },
    Failure { reason: Seq<char> },
}

impl View for SyncOutcome {
    type V = SyncOutcomeView;

    open spec fn view(&self) -> SyncOutcomeView {
        match self {
            SyncOutcome::Success { millis } => SyncOutcomeView::Success { millis: *millis },
            SyncOutcome::Failure { reason } => SyncOutcomeView::Failure { reason: reason@ },
        }
    }
}

/// The per-repository record the dispatcher produces, exactly once per
/// repository that reaches it, never mutated afterwards.
#[derive(Clone, Debug)]
pub struct SyncResult {
    /// The repository's name.
    pub repo_name: String,
    /// The operation that was dispatched (or skipped).
    pub operation: Operation,
    /// How it ended.
    pub outcome: SyncOutcome,
}

/// The mathematical content of a `SyncResult`.
pub struct SyncResultView {
    pub repo_name: Seq<char>,
    pub operation: Operation,
    pub outcome: SyncOutcomeView,
}

impl View for SyncResult {
    type V = SyncResultView;

    open spec fn view(&self) -> SyncResultView {
        SyncResultView {
            repo_name: self.repo_name@,
            operation: self.operation,
            outcome: self.outcome@,
        }
    }
}

/// Everything the dispatcher needs to know about one repository: its name,
/// its disposition this run, whether cleanup removed its broken mirror,
/// and what the transport reported for its operation (ignored for a
/// skipped repository).
#[derive(Clone, Debug)]
pub struct RepoTask {
    pub name: String,
    pub disposition: Disposition,
    pub cleanup_removed: bool,
    pub transport: TransportOutcome,
}

/// The mathematical content of a `RepoTask`.
pub struct RepoTaskView {
    pub name: Seq<char>,
    pub disposition: Disposition,
    pub cleanup_removed: bool,
    pub transport: TransportOutcomeView,
}

impl View for RepoTask {
    type V = RepoTaskView;

    open spec fn view(&self) -> RepoTaskView {
        RepoTaskView {
            name: self.name@,
            disposition: self.disposition,
            cleanup_removed: self.cleanup_removed,
            transport: self.transport@,
        }
    }
}

/// The disposition a repository effectively has once cleanup has run: a
/// broken mirror whose directory cleanup removed is clonable afresh, all
/// else is unchanged.
pub open spec fn effective_disposition(d: Disposition, cleanup_removed: bool) -> Disposition {
    if d is Broken && cleanup_removed {
        Disposition::New
    } else {
        d
    }
}

/// The operation each disposition gets: clone what is absent, fetch what
/// is healthy, touch nothing that is broken or invalid.
pub open spec fn operation_for(d: Disposition) -> Operation {
    match d {
        Disposition::New => Operation::CloneMirror,
        Disposition::Healthy => Operation::FetchMirror,
        Disposition::Broken => Operation::Skip,
        Disposition::Invalid => Operation::Skip,
    }
}

/// Why a repository was skipped.
pub open spec fn spec_skip_reason(d: Disposition) -> Seq<char> {
    if d is Invalid {
        "path exists, but is not a directory"@
    } else {
        "broken repository was not removed"@
    }
}

/// Decides the operation for one repository from its disposition and from
/// whether cleanup removed its broken mirror.
pub fn plan_operation(d: Disposition, cleanup_removed: bool) -> (op: Operation)
    ensures
        op == operation_for(effective_disposition(d, cleanup_removed)),
{
    match d {
        Disposition::New => Operation::CloneMirror,
        Disposition::Healthy => Operation::FetchMirror,
        Disposition::Broken => {
            if cleanup_removed {
                Operation::CloneMirror
            } else {
                Operation::Skip
            }
        },
        Disposition::Invalid => Operation::Skip,
    }
}

/// What a well-formed cleanup selection looks like: only broken mirrors
/// are selected; with cleanup enabled every broken mirror is selected;
/// with cleanup disabled nothing is; and indices come strictly in order.
pub open spec fn cleanup_selection_ok(ds: Seq<Disposition>, t: Seq<usize>, enabled: bool) -> bool {
    &&& forall|j: int| 0 <= j < t.len() ==> t[j] < ds.len() && ds[t[j] as int] is Broken
    &&& enabled ==> (forall|i: int|
        0 <= i < ds.len() && ds[i] is Broken ==> t.contains(i as usize))
    &&& !enabled ==> t.len() == 0
    &&& forall|a: int, b: int| 0 <= a < b < t.len() ==> t[a] < t[b]
}

/// Selects the mirrors that cleanup may remove: exactly the broken ones,
/// and only when cleanup is enabled.
#[verifier::loop_isolation(false)]
pub fn cleanup_targets(ds: &Vec<Disposition>, enabled: bool) -> (t: Vec<usize>)
    ensures
        cleanup_selection_ok(ds@, t@, enabled),
{
    let mut t: Vec<usize> = Vec::new();
    if !enabled {
        return t;
    }
    let n = ds.len();
    let mut i: usize = 0;
    while i < n
        invariant
            i <= n,
            forall|j: int| 0 <= j < t@.len() ==> t@[j] < i && ds@[t@[j] as int] is Broken,
            forall|k: int| 0 <= k < i && ds@[k] is Broken ==> t@.contains(k as usize),
            forall|a: int, b: int| 0 <= a < b < t@.len() ==> t@[a] < t@[b],
        decreases n - i,
    {
        if ds[i] == Disposition::Broken {
            let ghost t0 = t@;
            t.push(i);
            proof {
                assert forall|k: int| 0 <= k < i + 1 && ds@[k] is Broken implies t@.contains(
                    k as usize,
                ) by {
                    if k < i {
                        let w = choose|w: int| 0 <= w < t0.len() && t0[w] == k as usize;
                        assert(t@[w] == k as usize);
                    } else {
                        assert(t@[t@.len() - 1] == i as usize);
                    }
                }
            }
        }
        i += 1;
    }
    t
}

/// A mirror classified `Healthy` is never selected for cleanup, so it is
/// never handed to the component that deletes mirror directories.
pub proof fn lemma_cleanup_never_selects_healthy(
    ds: Seq<Disposition>,
    t: Seq<usize>,
    enabled: bool,
)
    requires
        cleanup_selection_ok(ds, t, enabled),
    ensures
        forall|j: int| 0 <= j < t.len() ==> !(ds[t[j] as int] is Healthy),
{
}

/// The disposition a repository reaches after one run in which its
/// operation (and, for a broken mirror, its removal) went as the flags
/// say: a cloned repository becomes healthy, a failed clone leaves the
/// path absent, everything else keeps its disposition.
pub open spec fn disposition_after_run(
    d: Disposition,
    cleanup_removed: bool,
    op_succeeded: bool,
) -> Disposition {
    match effective_disposition(d, cleanup_removed) {
        Disposition::New => if op_succeeded {
            Disposition::Healthy
        } else {
            Disposition::New
        },
        Disposition::Healthy => Disposition::Healthy,
        Disposition::Broken => Disposition::Broken,
        Disposition::Invalid => Disposition::Invalid,
    }
}

/// The operation a repository gets on a second run with the same cleanup
/// flag, after a first run whose operations (including any cleanup
/// removal) all succeeded and with no concurrent local mutation.
pub open spec fn second_run_operation(d: Disposition, cleanup_enabled: bool) -> Operation {
    let removed1 = cleanup_enabled && d is Broken;
    let d2 = disposition_after_run(d, removed1, true);
    let removed2 = cleanup_enabled && d2 is Broken;
    operation_for(effective_disposition(d2, removed2))
}

/// Idempotence: after a run whose operations all succeeded, a second run
/// over an unchanged remote inventory and untouched local mirrors plans no
/// clone at all, and plans a fetch exactly for the repositories that were
/// new, healthy, or broken-and-cleaned the first time.
pub proof fn lemma_second_run_idempotent(d: Disposition, cleanup_enabled: bool)
    ensures
        second_run_operation(d, cleanup_enabled) != Operation::CloneMirror,
        second_run_operation(d, cleanup_enabled) == Operation::FetchMirror <==> (d is New
            || d is Healthy || (d is Broken && cleanup_enabled)),
{
}

/// The same, over a whole classified run: the second run holds not a
/// single clone.
pub proof fn lemma_second_run_has_no_clones(ds: Seq<Disposition>, cleanup_enabled: bool)
    ensures
        forall|i: int| 0 <= i < ds.len() ==> #[trigger] second_run_operation(ds[i],
            cleanup_enabled) != Operation::CloneMirror,
{
    assert forall|i: int| 0 <= i < ds.len() implies #[trigger] second_run_operation(ds[i],
        cleanup_enabled) != Operation::CloneMirror by {
        lemma_second_run_idempotent(ds[i], cleanup_enabled);
    }
}

/// The result the dispatcher records for one repository: the planned
/// operation, with the transport's outcome for an executed operation and
/// the skip reason for a skipped one. It depends on that repository's task
/// alone.
pub open spec fn spec_sync_result(t: RepoTaskView) -> SyncResultView {
    let eff = effective_disposition(t.disposition, t.cleanup_removed);
    let op = operation_for(eff);
    SyncResultView {
        repo_name: t.name,
        operation: op,
        outcome: if op is Skip {
            SyncOutcomeView::Failure { reason: spec_skip_reason(eff) }
        } else {
            match t.transport {
                TransportOutcomeView::Completed { millis } => (SyncOutcomeView::Success {
                    millis,
                }),
                TransportOutcomeView::TransportFailure { reason } => (SyncOutcomeView::Failure {
                    reason,
                }),
            }
        },
    }
}

/// Produces the per-repository result for one task.
pub fn dispatch_one(task: &RepoTask) -> (r: SyncResult)
    ensures
        r@ == spec_sync_result(task@),
{
    let op = plan_operation(task.disposition, task.cleanup_removed);
    let outcome: SyncOutcome = if op == Operation::Skip {
        match task.disposition {
            Disposition::Invalid => SyncOutcome::Failure {
                reason: String::from_str("path exists, but is not a directory"),
            },
            _ => SyncOutcome::Failure {
                reason: String::from_str("broken repository was not removed"),
            },
        }
    } else {
        match &task.transport {
            TransportOutcome::Completed { millis } => SyncOutcome::Success { millis: *millis },
            TransportOutcome::TransportFailure { reason } => SyncOutcome::Failure {
                reason: reason.clone(),
            },
        }
    };
    SyncResult { repo_name: task.name.clone(), operation: op, outcome }
}

/// Produces one result per task, each from that task alone, in order.
#[verifier::loop_isolation(false)]
pub fn collect_results(tasks: &Vec<RepoTask>) -> (rs: Vec<SyncResult>)
    ensures
        rs@.len() == tasks@.len(),
        forall|i: int| 0 <= i < tasks@.len() ==> rs@[i]@ == spec_sync_result(tasks@[i]@),
{
    let n = tasks.len();
    let mut rs: Vec<SyncResult> = Vec::new();
    let mut i: usize = 0;
    while i < n
        invariant
            i <= n,
            rs@.len() == i,
            forall|k: int| 0 <= k < i ==> rs@[k]@ == spec_sync_result(tasks@[k]@),
        decreases n - i,
    {
        let r = dispatch_one(&tasks[i]);
        rs.push(r);
        i += 1;
    }
    rs
}

/// Decides which branch a healthy mirror's fetch asks for: exactly the
/// branch its HEAD refers to. A HEAD that is not a branch, or one whose
/// branch name cannot be read, is a repo-scoped failure — no branch is
/// guessed.
pub fn plan_fetch<'a>(head_is_branch: bool, head_shorthand: Option<&'a str>) -> (r: Result<
    &'a str,
    String,
>)
    ensures
        !head_is_branch ==> (r matches Err(m) && m@ == "HEAD does not refer to a branch"@),
        head_is_branch && head_shorthand is None ==> (r matches Err(m) && m@
            == "unable to get branch for HEAD"@),
        head_is_branch && head_shorthand is Some ==> (r matches Ok(b) && b@
            == head_shorthand->Some_0@),
{
    if !head_is_branch {
        return Err(String::from_str("HEAD does not refer to a branch"));
    }
    match head_shorthand {
        Some(b) => Ok(b),
        None => Err(String::from_str("unable to get branch for HEAD")),
    }
}

/// Partial-failure isolation: change one repository's task (say, its
/// transport outcome) and every other repository's result is exactly what
/// it was, because each result is a function of its own task alone.
pub proof fn lemma_partial_failure_isolation(a: Seq<RepoTaskView>, b: Seq<RepoTaskView>, j: int)
    requires
        a.len() == b.len(),
        forall|k: int| 0 <= k < a.len() && k != j ==> a[k] == b[k],
    ensures
        forall|k: int| 0 <= k < a.len() && k != j ==> spec_sync_result(a[k]) == spec_sync_result(
            b[k],
        ),
{
}

} // verus!
