use shopvac::filter::{default_exclude_pattern, ExcludePattern};
use shopvac::model::{PodCandidate, PodIdentity};
use shopvac::sweep::{
    plan_sweep, plan_sweep_pass, FanOut, SweepPlan, SweepStep, DEFAULT_CONCURRENCY_LIMIT,
};

fn identities(n: usize) -> Vec<PodIdentity> {
    let mut ids = Vec::new();
    for k in 0..n {
        ids.push(PodIdentity { namespace: "ci".to_string(), name: format!("pod-{}", k) });
    }
    ids
}

#[test]
fn dry_run_issues_nothing_and_reports_selection_size() {
    match plan_sweep(identities(25), false, DEFAULT_CONCURRENCY_LIMIT) {
        SweepPlan::DryRun { selected } => assert_eq!(selected, 25),
        SweepPlan::Delete(_) => panic!("dry run must not build a fan-out"),
    }
}

#[test]
fn dry_run_of_empty_selection_reports_zero() {
    match plan_sweep(Vec::new(), false, DEFAULT_CONCURRENCY_LIMIT) {
        SweepPlan::DryRun { selected } => assert_eq!(selected, 0),
        SweepPlan::Delete(_) => panic!("dry run must not build a fan-out"),
    }
}

#[test]
fn fan_out_never_exceeds_concurrency_limit() {
    let mut engine = match plan_sweep(identities(25), true, 10) {
        SweepPlan::Delete(engine) => engine,
        SweepPlan::DryRun { .. } => panic!("deletion requested"),
    };
    let mut outstanding: Vec<PodIdentity> = Vec::new();
    let mut launches = 0usize;
    let mut peak = 0usize;
    let mut steps = 0usize;
    loop {
        steps += 1;
        assert!(steps < 1000, "fan-out must finish");
        assert!(engine.in_flight() <= engine.limit());
        match engine.next_step() {
            SweepStep::Launch => {
                let id = engine.launch();
                launches += 1;
                outstanding.push(id);
                assert!(engine.in_flight() <= 10);
                peak = peak.max(engine.in_flight());
            }
            SweepStep::AwaitOne => {
                let id = outstanding.pop().expect("an outstanding call exists");
                engine.complete(id, true);
            }
            SweepStep::Finished => break,
        }
    }
    assert_eq!(launches, 25);
    assert_eq!(peak, 10);
    assert_eq!(engine.results().len(), 25);
    assert_eq!(engine.pending_len(), 0);
    assert_eq!(engine.in_flight(), 0);
    assert!(outstanding.is_empty());
}

#[test]
fn single_failure_is_recorded_and_does_not_abort_the_batch() {
    let mut engine = FanOut::new(identities(2), 1);
    let first = engine.launch();
    engine.complete(first, false);
    let second = engine.launch();
    engine.complete(second, true);
    let results = engine.results();
    assert_eq!(results.len(), 2);
    assert!(!results[0].accepted);
    assert!(results[1].accepted);
    assert!(matches!(engine.next_step(), SweepStep::Finished));
}

#[test]
fn launch_hands_out_every_identity_exactly_once() {
    let mut engine = FanOut::new(identities(3), 2);
    let mut seen: Vec<String> = Vec::new();
    while engine.pending_len() > 0 {
        let id = engine.launch();
        seen.push(id.name);
        engine.complete(
            PodIdentity { namespace: "ci".to_string(), name: "done".to_string() },
            true,
        );
    }
    seen.sort();
    assert_eq!(seen, vec!["pod-0", "pod-1", "pod-2"]);
}

#[test]
fn sweep_pass_dry_run_counts_the_selection() {
    let now: i64 = 1_700_000_000;
    let pods = vec![
        PodCandidate {
            namespace: "ci".to_string(),
            name: "stale-a".to_string(),
            created_at_secs: Some(now - 9 * 86400),
        },
        PodCandidate {
            namespace: "ci".to_string(),
            name: "stale-b".to_string(),
            created_at_secs: Some(now - 8 * 86400),
        },
        PodCandidate {
            namespace: "kube-system".to_string(),
            name: "protected".to_string(),
            created_at_secs: Some(now - 30 * 86400),
        },
    ];
    let exclude = ExcludePattern::compile(default_exclude_pattern()).expect("pattern compiles");
    match plan_sweep_pass(&pods, &exclude, 3, now, false, DEFAULT_CONCURRENCY_LIMIT) {
        SweepPlan::DryRun { selected } => assert_eq!(selected, 2),
        SweepPlan::Delete(_) => panic!("dry run must not build a fan-out"),
    }
}

#[test]
fn sweep_pass_delete_holds_exactly_the_selection() {
    let now: i64 = 1_700_000_000;
    let pods = vec![
        PodCandidate {
            namespace: "ci".to_string(),
            name: "stale-a".to_string(),
            created_at_secs: Some(now - 9 * 86400),
        },
        PodCandidate {
            namespace: "ci".to_string(),
            name: "fresh".to_string(),
            created_at_secs: Some(now - 86400),
        },
    ];
    let exclude = ExcludePattern::compile(default_exclude_pattern()).expect("pattern compiles");
    let mut engine = match plan_sweep_pass(&pods, &exclude, 3, now, true, 4) {
        SweepPlan::Delete(engine) => engine,
        SweepPlan::DryRun { .. } => panic!("deletion requested"),
    };
    assert_eq!(engine.pending_len(), 1);
    let id = engine.launch();
    assert_eq!(id.namespace, "ci");
    assert_eq!(id.name, "stale-a");
}
