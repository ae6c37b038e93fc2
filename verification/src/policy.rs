//! Error/requeue policy: maps the outcome of one reconcile pass to the delay
//! before the instance is reconciled again.
//!
//! A successful pass re-verifies after a fixed long delay (self-healing
//! re-check); any failure retries after a fixed short delay, independent of
//! the failure kind or retry count.

use vstd::prelude::*;

verus! {

/// Outcome of one reconcile pass. Both variants are transient: a failed pass
/// is simply retried sooner.
#[derive(Clone, Copy, Debug, PartialEq, Eq, Structural)]
pub enum ReconcileOutcome {
    /// Every child object was applied.
    Applied,
    /// The instance lacked required metadata, or an apply call failed.
    Failed,
}

/// Delay before re-reconciling after a fully applied pass, in seconds.
pub const REQUEUE_APPLIED_SECS: u64 = 300;

/// Delay before retrying after a failed pass, in seconds.
pub const REQUEUE_FAILED_SECS: u64 = 1;

/// The delay, in seconds, that the policy assigns to an outcome.
pub open spec fn requeue_delay_spec(outcome: ReconcileOutcome) -> int {
    match outcome {
        ReconcileOutcome::Applied => REQUEUE_APPLIED_SECS as int,
        ReconcileOutcome::Failed => REQUEUE_FAILED_SECS as int,
    }
}

/// Maps a reconcile outcome to the delay before the next reconcile of the
/// same instance.
pub fn requeue_delay_secs(outcome: ReconcileOutcome) -> (delay: u64)
    ensures
        delay == requeue_delay_spec(outcome),
{
    match outcome {
        ReconcileOutcome::Applied => REQUEUE_APPLIED_SECS,
        ReconcileOutcome::Failed => REQUEUE_FAILED_SECS,
    }
}

/// Law: a failed reconcile schedules a strictly shorter next-attempt delay
/// than a successful one.
pub proof fn lemma_failed_requeues_sooner(failed: ReconcileOutcome, applied: ReconcileOutcome)
    requires
        failed is Failed,
        applied is Applied,
    ensures
        requeue_delay_spec(failed) < requeue_delay_spec(applied),
{
}

} // verus!
