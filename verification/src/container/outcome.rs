//! The outcome of a run: how per-step failures surface through the
//! chain. Each wrapping step passes its successor's error up inside a
//! `ChildError`, so the error of a run that failed at step `N` carries
//! exactly `N` wrapping levels — the nesting mirrors the chain. A step
//! that fails does not invoke its successor, and the side effects of
//! the steps before it are never rolled back: the model has no undo.
use vstd::prelude::*;

verus! {

use crate::container::step::mount_namespace::MountingError;
use crate::container::step::user_namespace::IdMapErrorKind;
use crate::container::step::Step;
use crate::linux::{CloneError, SwitchUserError, UnshareError};

/// One step's own failure, as the driver reports it: what failed within
/// the step that reached it, with the raw `errno` where one exists.
#[derive(Debug, Clone, Copy, PartialEq, Eq)]
pub enum StepFailure {
    /// The VM-sharing clone failed.
    CloneError(CloneError),
    /// Installing the uid map failed at the given stage.
    UserIdMapError(IdMapErrorKind, i32),
    /// Installing the gid map failed at the given stage.
    GroupIdMapError(IdMapErrorKind, i32),
    /// A rendezvous send or receive failed.
    MsgQueue,
    /// Unsharing a namespace failed.
    Unshare(UnshareError),
    /// A mount operation failed.
    Op(MountingError),
    /// An identity switch failed.
    SwitchUser(SwitchUserError),
    /// Entering the working directory failed.
    SwitchDir(i32),
    /// Spawning the configured command failed.
    Spawn(i32),
}

/// The error a run returns: the failing step's own failure, wrapped in
/// one `ChildError` per step standing outside it.
#[derive(Debug, PartialEq, Eq)]
pub enum RunError {
    ChildError(Box<RunError>),
    Failed(StepFailure),
}

/// How many wrapping steps stand around the failure: the index of the
/// failing step in the chain.
pub open spec fn error_depth(e: RunError) -> nat
    decreases e,
{
    match e {
        RunError::ChildError(inner) => 1 + error_depth(*inner),
        RunError::Failed(_) => 0,
    }
}

/// The failing step's own failure, unwrapped.
pub open spec fn error_leaf(e: RunError) -> StepFailure
    decreases e,
{
    match e {
        RunError::ChildError(inner) => error_leaf(*inner),
        RunError::Failed(f) => f,
    }
}

/// The steps up to index `m` (not counted) all ran their own work
/// without failing, so step `m` was invoked — or the run ended just
/// before it, had the chain no step `m`.
pub open spec fn step_invoked(failures: Seq<Option<StepFailure>>, m: int) -> bool {
    forall|j: int| 0 <= j < m ==> (#[trigger] failures[j]) is None
}

/// Computes what a run of `chain` returns, given each step's reported
/// outcome: `failures[i]` is `None` when step `i`'s own work succeeded
/// and carries its failure otherwise. Entries past the first failure
/// are never consulted — those steps are not invoked.
///
/// The result is `Ok` exactly when every step succeeded; otherwise the
/// error's `ChildError` nesting depth is the index of the first failing
/// step, and its leaf is that step's reported failure.
pub fn run_outcome(chain: &Step, failures: &Vec<Option<StepFailure>>) -> (r: Result<
    (),
    RunError,
>)
    requires
        failures@.len() == chain.step_count(),
    ensures
        r is Ok <==> (forall|j: int| 0 <= j < failures@.len() ==> (#[trigger] failures@[j]) is None),
        r matches Err(e) ==> {
            let k = error_depth(e) as int;
            &&& 0 <= k < failures@.len()
            &&& failures@[k] == Some(error_leaf(e))
            &&& step_invoked(failures@, k)
        },
{
    outcome_from(chain, failures, 0)
}

/// The run outcome of the sub-chain standing at index `idx`.
fn outcome_from(chain: &Step, failures: &Vec<Option<StepFailure>>, idx: usize) -> (r: Result<
    (),
    RunError,
>)
    requires
        idx + chain.step_count() == failures@.len(),
    ensures
        r is Ok <==> (forall|j: int|
            idx <= j < failures@.len() ==> (#[trigger] failures@[j]) is None),
        r matches Err(e) ==> {
            let k = idx + error_depth(e) as int;
            &&& idx <= k < failures@.len()
            &&& failures@[k] == Some(error_leaf(e))
            &&& forall|j: int| idx <= j < k ==> (#[trigger] failures@[j]) is None
        },
    decreases chain,
{
    match failures[idx] {
        Some(f) => Err(RunError::Failed(f)),
        None => {
            match chain.next_ref() {
                Some(next) => {
                    let n: usize = failures.len();
                    proof {
                        assert(chain.step_count() == 1 + next.step_count());
                        assert(idx < n);
                    }
                    match outcome_from(next, failures, idx + 1) {
                        Ok(()) => Ok(()),
                        Err(e) => Err(RunError::ChildError(Box::new(e))),
                    }
                },
                None => {
                    proof {
                        assert(chain.step_count() == 1);
                    }
                    Ok(())
                },
            }
        },
    }
}

/// Step idempotence at error: when the first failure sits at step `k`,
/// every step up to and through `k` was invoked and none after it.
pub proof fn lemma_failure_stops_chain(failures: Seq<Option<StepFailure>>, k: int)
    requires
        0 <= k < failures.len(),
        failures[k] is Some,
        forall|j: int| 0 <= j < k ==> (#[trigger] failures[j]) is None,
    ensures
        forall|m: int| 0 <= m <= k ==> step_invoked(failures, m),
        forall|m: int| k < m <= failures.len() ==> !step_invoked(failures, m),
{
    assert forall|m: int| k < m <= failures.len() implies !step_invoked(failures, m) by {
        assert(0 <= k < m && failures[k] is Some);
    }
}

} // verus!
