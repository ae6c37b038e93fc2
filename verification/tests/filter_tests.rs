use shopvac::filter::{
    age_days_of, default_exclude_pattern, filter_pods, select_stale, ExcludePattern,
    DEFAULT_OLDER_THAN_DAYS,
};
use shopvac::model::PodCandidate;

fn pod(namespace: &str, name: &str, created_at_secs: Option<i64>) -> PodCandidate {
    PodCandidate {
        namespace: namespace.to_string(),
        name: name.to_string(),
        created_at_secs,
    }
}

fn default_pattern() -> ExcludePattern {
    ExcludePattern::compile(default_exclude_pattern()).expect("default pattern compiles")
}

#[test]
fn kube_system_excluded_regardless_of_age() {
    let now: i64 = 1_700_000_000;
    let pods = vec![pod("kube-system", "ancient", Some(now - 1000 * 86400))];
    let batch = filter_pods(&pods, &default_pattern(), 3, now);
    assert_eq!(batch.len(), 0);
}

#[test]
fn openshift_namespaces_excluded() {
    let now: i64 = 1_700_000_000;
    let pods = vec![
        pod("openshift-build", "old-a", Some(now - 10 * 86400)),
        pod("openshift", "old-b", Some(now - 10 * 86400)),
    ];
    let batch = filter_pods(&pods, &default_pattern(), 3, now);
    assert_eq!(batch.len(), 0);
}

#[test]
fn default_namespace_not_exempt() {
    let now: i64 = 1_700_000_000;
    let pods = vec![pod("default", "stale", Some(now - 10 * 86400))];
    let batch = filter_pods(&pods, &default_pattern(), 3, now);
    assert_eq!(batch.len(), 1);
    assert_eq!(batch[0].namespace, "default");
    assert_eq!(batch[0].name, "stale");
}

#[test]
fn age_exactly_at_threshold_retained() {
    let now: i64 = 1_700_000_000;
    let pods = vec![pod("default", "three-days", Some(now - 3 * 86400))];
    let batch = filter_pods(&pods, &default_pattern(), 3, now);
    assert_eq!(batch.len(), 0);
}

#[test]
fn age_one_second_past_threshold_still_three_whole_days() {
    // 3 days + 1 s truncates to 3 whole days, which is not strictly greater
    // than the threshold, so the pod is retained.
    let now: i64 = 1_700_000_000;
    let pods = vec![pod("default", "barely", Some(now - (3 * 86400 + 1)))];
    let batch = filter_pods(&pods, &default_pattern(), 3, now);
    assert_eq!(batch.len(), 0);
}

#[test]
fn age_four_whole_days_selected() {
    let now: i64 = 1_700_000_000;
    let pods = vec![pod("default", "four-days", Some(now - 4 * 86400))];
    let batch = filter_pods(&pods, &default_pattern(), 3, now);
    assert_eq!(batch.len(), 1);
    assert_eq!(batch[0].name, "four-days");
}

#[test]
fn missing_timestamp_never_selected() {
    let now: i64 = 1_700_000_000;
    let pods = vec![pod("default", "no-timestamp", None)];
    let batch = filter_pods(&pods, &default_pattern(), 3, now);
    assert_eq!(batch.len(), 0);
}

#[test]
fn mixed_listing_selects_only_stale_unprotected_pods() {
    let now: i64 = 1_700_000_000;
    let pods = vec![
        pod("kube-system", "protected", Some(now - 30 * 86400)),
        pod("ci", "stale", Some(now - 9 * 86400)),
        pod("ci", "fresh", Some(now - 86400)),
        pod("ci", "unknown-age", None),
    ];
    let batch = filter_pods(&pods, &default_pattern(), DEFAULT_OLDER_THAN_DAYS, now);
    assert_eq!(batch.len(), 1);
    assert_eq!(batch[0].namespace, "ci");
    assert_eq!(batch[0].name, "stale");
}

#[test]
fn custom_pattern_scopes_exclusion() {
    let now: i64 = 1_700_000_000;
    let exclude = ExcludePattern::compile("infra-.*").expect("pattern compiles");
    let pods = vec![
        pod("infra-monitoring", "old-a", Some(now - 10 * 86400)),
        pod("kube-system", "old-b", Some(now - 10 * 86400)),
    ];
    let batch = filter_pods(&pods, &exclude, 3, now);
    assert_eq!(batch.len(), 1);
    assert_eq!(batch[0].namespace, "kube-system");
}

#[test]
fn exclusion_is_anchored_to_the_full_namespace() {
    let now: i64 = 1_700_000_000;
    let pods = vec![
        pod("my-kube", "inner-match-only", Some(now - 10 * 86400)),
        pod("kube", "full-match", Some(now - 10 * 86400)),
    ];
    let batch = filter_pods(&pods, &default_pattern(), 3, now);
    assert_eq!(batch.len(), 1);
    assert_eq!(batch[0].namespace, "my-kube");
}

#[test]
fn invalid_pattern_rejected() {
    assert!(ExcludePattern::compile("(").is_err());
}

#[test]
fn age_truncates_toward_zero() {
    assert_eq!(age_days_of(86_399, 0), 0);
    assert_eq!(age_days_of(86_400, 0), 1);
    assert_eq!(age_days_of(0, -86_401), 1);
    assert_eq!(age_days_of(0, 1), 0);
    assert_eq!(age_days_of(0, 86_401), -1);
    assert_eq!(age_days_of(i64::MAX, i64::MIN), ((i64::MAX as i128 - i64::MIN as i128) / 86400) as i64);
}

#[test]
fn select_stale_agrees_with_filter_at_returned_instant() {
    let pods = vec![
        pod("default", "epoch-pod", Some(0)),
        pod("default", "no-timestamp", None),
    ];
    let (now, batch) = select_stale(&pods, &default_pattern(), 3);
    assert!(now > 4 * 86400);
    let again = filter_pods(&pods, &default_pattern(), 3, now);
    assert_eq!(batch.len(), 1);
    assert_eq!(batch[0].name, "epoch-pod");
    assert_eq!(again.len(), 1);
    assert_eq!(again[0].name, batch[0].name);
}
