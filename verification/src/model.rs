//! The synchronization engine's state machine in the abstract, and the
//! laws proved of it: which references each operation moves, how a pull
//! composes from a fetch and a hard reset, what its partial failures
//! leave behind, how bootstrap decides between opening and cloning, and
//! why guarded execution serializes. The step functions are the
//! executable form of the transition specifications; the engine-backed
//! operations in the repository module perform the same transitions
//! against the real on-disk store, whose state no contract can name, so
//! the laws are stated and proved here and the tests drive both sides on
//! the same scenarios.

use vstd::prelude::*;

verus! {

/// Abstract state of the working copy, as the synchronization engine sees
/// it. Commit identities are abstracted to integers; `tracking` is the
/// target of the remote-tracking reference a pull updates, `head` the tip
/// of the current local branch, `index` and `tree` the commits the index
/// and the working tree currently match, and `dirty` records whether the
/// working tree holds uncommitted local modifications.
#[derive(Debug, Clone, Copy, PartialEq, Eq, Structural)]
pub struct SyncState {
    pub tracking: u64,
    pub head: u64,
    pub index: u64,
    pub tree: u64,
    pub dirty: bool,
}

/// What the outside world did when asked to transfer a branch: the remote
/// delivered a tip commit, the remote name was not configured, or the
/// transfer could not complete.
#[derive(Debug, Clone, Copy, PartialEq, Eq, Structural)]
pub enum FetchOutcome {
    Transferred(u64),
    NoSuchRemote,
    Unreachable,
}

/// Failure kinds of the abstract transitions, mirroring the error taxonomy
/// of the engine.
#[derive(Debug, Clone, Copy, PartialEq, Eq, Structural)]
pub enum StepFailure {
    MissingRemote,
    Network,
    Reset,
    MissingRef,
    Bootstrap,
}

/// How bootstrap obtained the repository.
#[derive(Debug, Clone, Copy, PartialEq, Eq, Structural)]
pub enum BootstrapMethod {
    Opened,
    Cloned,
}

/// Next state after a fetch, given the outside outcome: only the
/// remote-tracking reference moves; head, index, working tree and any
/// local modifications are untouched, whether or not the transfer worked.
pub open spec fn spec_fetch_step(s: SyncState, outcome: FetchOutcome) -> (SyncState, Result<
    (),
    StepFailure,
>) {
    match outcome {
        FetchOutcome::Transferred(tip) => (SyncState { tracking: tip, ..s }, Ok(())),
        FetchOutcome::NoSuchRemote => (s, Err(StepFailure::MissingRemote)),
        FetchOutcome::Unreachable => (s, Err(StepFailure::Network)),
    }
}

/// Next state after a hard reset to the remote-tracking reference, given
/// whether the filesystem let the reset complete. A successful hard reset
/// is destructive: the current branch, the index and the working tree all
/// converge on the tracking target and uncommitted modifications are gone.
/// A failed reset leaves the state exactly as it was.
pub open spec fn spec_reset_step(s: SyncState, reset_ok: bool) -> (SyncState, Result<
    (),
    StepFailure,
>) {
    if reset_ok {
        (
            SyncState {
                tracking: s.tracking,
                head: s.tracking,
                index: s.tracking,
                tree: s.tracking,
                dirty: false,
            },
            Ok(()),
        )
    } else {
        (s, Err(StepFailure::Reset))
    }
}

/// Next state after a pull: a fetch followed, only on fetch success, by a
/// hard reset to the updated tracking reference.
pub open spec fn spec_pull_step(s: SyncState, outcome: FetchOutcome, reset_ok: bool) -> (SyncState,
    Result<(), StepFailure>) {
    let (fetched, fetch_result) = spec_fetch_step(s, outcome);
    match fetch_result {
        Ok(()) => spec_reset_step(fetched, reset_ok),
        Err(e) => (fetched, Err(e)),
    }
}

/// Next state after a checkout: if the branch reference resolves, the
/// working tree is overwritten to match its target and nothing else moves
/// (in particular the current branch tip does not); if it does not
/// resolve, the state is untouched.
pub open spec fn spec_checkout_step(s: SyncState, target: Option<u64>) -> (SyncState, Result<
    (),
    StepFailure,
>) {
    match target {
        Some(t) => (SyncState { tree: t, dirty: false, ..s }, Ok(())),
        None => (s, Err(StepFailure::MissingRef)),
    }
}

/// The bootstrap decision: use the existing repository whenever it opens,
/// and only on open-failure fall back to cloning; with neither available
/// the service must not start.
pub open spec fn spec_bootstrap(open_ok: bool, clone_ok: bool) -> Result<
    BootstrapMethod,
    StepFailure,
> {
    if open_ok {
        Ok(BootstrapMethod::Opened)
    } else if clone_ok {
        Ok(BootstrapMethod::Cloned)
    } else {
        Err(StepFailure::Bootstrap)
    }
}

/// Fetch transition, executable form. See `spec_fetch_step`.
pub fn fetch_step(s: &SyncState, outcome: &FetchOutcome) -> (r: (SyncState, Result<
    (),
    StepFailure,
>))
    ensures
        r == spec_fetch_step(*s, *outcome),
{
    match outcome {
        FetchOutcome::Transferred(tip) => (
            SyncState {
                tracking: *tip,
                head: s.head,
                index: s.index,
                tree: s.tree,
                dirty: s.dirty,
            },
            Ok(()),
        ),
        FetchOutcome::NoSuchRemote => (*s, Err(StepFailure::MissingRemote)),
        FetchOutcome::Unreachable => (*s, Err(StepFailure::Network)),
    }
}

/// Hard-reset transition, executable form. See `spec_reset_step`.
pub fn reset_step(s: &SyncState, reset_ok: bool) -> (r: (SyncState, Result<(), StepFailure>))
    ensures
        r == spec_reset_step(*s, reset_ok),
{
    if reset_ok {
        (
            SyncState {
                tracking: s.tracking,
                head: s.tracking,
                index: s.tracking,
                tree: s.tracking,
                dirty: false,
            },
            Ok(()),
        )
    } else {
        (*s, Err(StepFailure::Reset))
    }
}

/// Pull transition, executable form: fetch, then on success hard-reset.
pub fn pull_step(s: &SyncState, outcome: &FetchOutcome, reset_ok: bool) -> (r: (SyncState, Result<
    (),
    StepFailure,
>))
    ensures
        r == spec_pull_step(*s, *outcome, reset_ok),
{
    let (fetched, fetch_result) = fetch_step(s, outcome);
    match fetch_result {
        Ok(()) => reset_step(&fetched, reset_ok),
        Err(e) => (fetched, Err(e)),
    }
}

/// Checkout transition, executable form. See `spec_checkout_step`.
pub fn checkout_step(s: &SyncState, target: Option<u64>) -> (r: (SyncState, Result<
    (),
    StepFailure,
>))
    ensures
        r == spec_checkout_step(*s, target),
{
    match target {
        Some(t) => (
            SyncState { tracking: s.tracking, head: s.head, index: s.index, tree: t, dirty: false },
            Ok(()),
        ),
        None => (*s, Err(StepFailure::MissingRef)),
    }
}

/// Bootstrap decision, executable form. See `spec_bootstrap`.
pub fn bootstrap_step(open_ok: bool, clone_ok: bool) -> (r: Result<BootstrapMethod, StepFailure>)
    ensures
        r == spec_bootstrap(open_ok, clone_ok),
{
    if open_ok {
        Ok(BootstrapMethod::Opened)
    } else if clone_ok {
        Ok(BootstrapMethod::Cloned)
    } else {
        Err(StepFailure::Bootstrap)
    }
}

/// Bootstrap idempotence: when the path already holds a repository that
/// opens, bootstrap never clones — whatever cloning would have done.
pub proof fn lemma_bootstrap_never_clones(clone_ok: bool)
    ensures
        spec_bootstrap(true, clone_ok) == Ok::<BootstrapMethod, StepFailure>(
            BootstrapMethod::Opened,
        ),
{
}

/// Bootstrap determinism: with no openable repository at the path and a
/// reachable remote, bootstrap succeeds by cloning; and since a clone
/// leaves an openable repository behind, a second bootstrap against the
/// same path then opens instead of cloning.
pub proof fn lemma_bootstrap_self_provisioning()
    ensures
        spec_bootstrap(false, true) == Ok::<BootstrapMethod, StepFailure>(BootstrapMethod::Cloned),
        spec_bootstrap(true, false) == Ok::<BootstrapMethod, StepFailure>(BootstrapMethod::Opened),
{
}

/// Pull is the composition fetch-then-reset: it succeeds exactly when the
/// fetch succeeds and the subsequent reset succeeds; when the fetch fails
/// the whole state — the working tree in particular — is untouched; and
/// when only the reset fails, the tracking reference has already advanced
/// while the tree has not, the observable intermediate state a caller must
/// be able to detect.
pub proof fn lemma_pull_composition(s: SyncState, outcome: FetchOutcome, reset_ok: bool)
    ensures
        spec_pull_step(s, outcome, reset_ok).1 is Ok <==> (spec_fetch_step(s, outcome).1 is Ok
            && reset_ok),
        spec_fetch_step(s, outcome).1 is Err ==> spec_pull_step(s, outcome, reset_ok).0 == s,
        outcome matches FetchOutcome::Transferred(tip) ==> !reset_ok ==> {
            let after = spec_pull_step(s, outcome, reset_ok).0;
            &&& after.tracking == tip
            &&& after.tree == s.tree
            &&& after.dirty == s.dirty
            &&& spec_pull_step(s, outcome, reset_ok).1 == Err::<(), StepFailure>(StepFailure::Reset)
        },
{
}

/// The destructive-pull property: after a successful pull, any uncommitted
/// local modification present before is gone, and branch tip, index and
/// working tree all exactly match the commit the remote delivered.
pub proof fn lemma_pull_destructive(s: SyncState, tip: u64)
    ensures
        ({
            let (after, result) = spec_pull_step(s, FetchOutcome::Transferred(tip), true);
            &&& result is Ok
            &&& !after.dirty
            &&& after.tree == tip
            &&& after.index == tip
            &&& after.head == tip
            &&& after.tracking == tip
        }),
{
}

/// One guarded operation against the handle, with the outside-world inputs
/// it depends on already pinned.
#[derive(Debug, Clone, Copy, PartialEq, Eq, Structural)]
pub enum Operation {
    Fetch(FetchOutcome),
    Pull(FetchOutcome, bool),
    Checkout(Option<u64>),
}

/// The state an operation leaves behind, successful or not.
pub open spec fn spec_apply(s: SyncState, op: Operation) -> SyncState {
    match op {
        Operation::Fetch(o) => spec_fetch_step(s, o).0,
        Operation::Pull(o, reset_ok) => spec_pull_step(s, o, reset_ok).0,
        Operation::Checkout(t) => spec_checkout_step(s, t).0,
    }
}

/// The state after a whole sequence of operations has held and released
/// the guard, in that order.
pub open spec fn spec_run(s: SyncState, ops: Seq<Operation>) -> SyncState
    decreases ops.len(),
{
    if ops.len() == 0 {
        s
    } else {
        spec_apply(spec_run(s, ops.drop_last()), ops.last())
    }
}

/// Every state observable between guarded operations: the initial state,
/// then the state after each operation of the order in which the guard was
/// acquired. The guard admits no other observation point.
pub open spec fn spec_trace(s: SyncState, ops: Seq<Operation>) -> Seq<SyncState>
    decreases ops.len(),
{
    if ops.len() == 0 {
        seq![s]
    } else {
        spec_trace(s, ops.drop_last()).push(spec_run(s, ops))
    }
}

/// Serialization, in general: however many operations are issued, the
/// trace of a guarded execution holds exactly one state per prefix of the
/// guard-acquisition order — state `i` of the trace is the state after the
/// first `i` operations, and there is no other observation point.
pub proof fn lemma_trace_is_sequential(s: SyncState, ops: Seq<Operation>, i: int)
    requires
        0 <= i <= ops.len(),
    ensures
        spec_trace(s, ops).len() == ops.len() + 1,
        spec_trace(s, ops)[i] == spec_run(s, ops.take(i)),
    decreases ops.len(),
{
    if ops.len() == 0 {
        assert(ops.take(0) =~= ops);
    } else {
        lemma_trace_is_sequential(s, ops.drop_last(), if i < ops.len() {
            i
        } else {
            i - 1
        });
        if i < ops.len() {
            assert(ops.drop_last().take(i) =~= ops.take(i));
            assert(spec_trace(s, ops)[i] == spec_trace(s, ops.drop_last())[i]);
        } else {
            assert(ops.take(i) =~= ops);
        }
    }
}

/// Serialization: two operations issued concurrently take effect in the
/// order in which they acquired the guard, and the only states a third
/// reader can ever observe are the initial state, the state after the
/// first operation of that order, and the state after both — the states of
/// a total order, never an interleaved one.
pub proof fn lemma_two_operations_serialize(
    s: SyncState,
    a: Operation,
    b: Operation,
    a_first: bool,
)
    ensures
        ({
            let order = if a_first {
                seq![a, b]
            } else {
                seq![b, a]
            };
            let observable = spec_trace(s, order);
            &&& observable.len() == 3
            &&& observable[0] == s
            &&& observable[1] == spec_apply(s, order[0])
            &&& observable[2] == spec_apply(spec_apply(s, order[0]), order[1])
        }),
{
    let order = if a_first {
        seq![a, b]
    } else {
        seq![b, a]
    };
    let one = seq![order[0]];
    assert(order.drop_last() =~= one);
    assert(one.drop_last() =~= Seq::<Operation>::empty());
    assert(one.last() == order[0]);
    assert(order.last() == order[1]);
    assert(spec_run(s, Seq::<Operation>::empty()) == s);
    assert(spec_run(s, one) == spec_apply(s, order[0]));
    assert(spec_run(s, order) == spec_apply(spec_apply(s, order[0]), order[1]));
    assert(spec_trace(s, Seq::<Operation>::empty()) =~= seq![s]);
    assert(spec_trace(s, one) =~= seq![s, spec_run(s, one)]);
    assert(spec_trace(s, order) =~= seq![s, spec_run(s, one), spec_run(s, order)]);
}

/// What a branch listing reads off a state: the tip of the current local
/// branch and the tip of the remote-tracking branch.
pub open spec fn spec_listing(s: SyncState) -> (u64, u64) {
    (s.head, s.tracking)
}

/// A listing racing a pull is consistent with either the complete
/// pre-pull or the complete post-pull state, never with a state where
/// only some references reflect the pull: the guard admits exactly the
/// observation points of the one-operation trace, and the listing read at
/// any of them is the pre-pull or the post-pull listing — even when the
/// pull stops half-way through its own steps (a reset failure), no
/// observation point lies inside it.
pub proof fn lemma_listing_never_torn(s: SyncState, outcome: FetchOutcome, reset_ok: bool, i: int)
    requires
        0 <= i <= 1,
    ensures
        spec_trace(s, seq![Operation::Pull(outcome, reset_ok)]).len() == 2,
        ({
            let seen = spec_listing(spec_trace(s, seq![Operation::Pull(outcome, reset_ok)])[i]);
            seen == spec_listing(s) || seen == spec_listing(spec_pull_step(s, outcome, reset_ok).0)
        }),
{
    let ops = seq![Operation::Pull(outcome, reset_ok)];
    lemma_trace_is_sequential(s, ops, i);
    assert(ops.take(0) =~= Seq::<Operation>::empty());
    assert(ops.take(1) =~= ops);
    assert(ops.drop_last() =~= Seq::<Operation>::empty());
    assert(spec_run(s, Seq::<Operation>::empty()) == s);
    assert(ops.last() == ops[0]);
    assert(spec_run(s, ops) == spec_apply(s, ops[0]));
}

} // verus!
