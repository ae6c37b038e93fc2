use shopvac::policy::{
    requeue_delay_secs, ReconcileOutcome, REQUEUE_APPLIED_SECS, REQUEUE_FAILED_SECS,
};

#[test]
fn applied_requeues_after_the_long_delay() {
    assert_eq!(requeue_delay_secs(ReconcileOutcome::Applied), 300);
    assert_eq!(requeue_delay_secs(ReconcileOutcome::Applied), REQUEUE_APPLIED_SECS);
}

#[test]
fn failed_requeues_after_the_short_delay() {
    assert_eq!(requeue_delay_secs(ReconcileOutcome::Failed), 1);
    assert_eq!(requeue_delay_secs(ReconcileOutcome::Failed), REQUEUE_FAILED_SECS);
}

#[test]
fn failed_requeues_strictly_sooner_than_applied() {
    assert!(
        requeue_delay_secs(ReconcileOutcome::Failed)
            < requeue_delay_secs(ReconcileOutcome::Applied)
    );
}
