//! Selector filter: pure predicate evaluation over pod metadata.
//!
//! A pod is excluded outright when its namespace matches the exclusion
//! pattern; a pod without a creation timestamp is never selected; otherwise
//! the pod is selected exactly when its age, truncated to whole days, is
//! strictly greater than the age threshold.

use vstd::prelude::*;
use vstd::arithmetic::div_mod::lemma_div_is_ordered;
use vstd::string::StringExecFns;
use crate::model::{pod_id_view, ids_of, PodCandidate, PodIdentity};

verus! {

#[verifier::external_type_specification]
#[verifier::external_body]
pub struct ExRegex(regex::Regex);

/// Whether a pattern is a valid regular expression (within the matcher's
/// default size limit). Compilation succeeds or fails on the pattern alone.
pub uninterp spec fn regex_valid(pattern: Seq<char>) -> bool;

/// Whether a regular expression matches anywhere in a text. The outcome is a
/// function of the pattern and the text alone.
pub uninterp spec fn regex_match(pattern: Seq<char>, text: Seq<char>) -> bool;

/// The namespace-exclusion pattern was not a valid regular expression.
#[derive(Clone, Copy, Debug, PartialEq, Eq, Structural)]
pub struct PatternDefect;

/// The exclusion pattern anchored against the full namespace string: a
/// namespace is excluded only when the whole of it matches the pattern.
pub open spec fn anchored_pattern(p: Seq<char>) -> Seq<char> {
    "^(?:"@ + p + ")$"@
}

/// An immutable namespace-exclusion matcher, compiled once at process start
/// and threaded explicitly into the filter. The compiled matcher always
/// stems from the pattern string stored beside it.
pub struct ExcludePattern {
    re: regex::Regex,
    pattern: String,
}

impl ExcludePattern {
    /// The pattern this matcher was compiled from.
    pub closed spec fn pattern_view(&self) -> Seq<char> {
        self.pattern@
    }

    /// Relies on regex::Regex::new: compilation succeeds exactly on valid
    /// patterns, and the compiled matcher is kept with its pattern.
    #[verifier::external_body]
    fn compile_raw(pattern: &str) -> (r: Result<ExcludePattern, PatternDefect>)
        ensures
            r is Ok <==> regex_valid(pattern@),
            (r matches Ok(p) ==> p.pattern_view() == pattern@),
    {
        match regex::Regex::new(pattern) {
            Ok(re) => Ok(ExcludePattern { re, pattern: pattern.to_owned() }),
            Err(_) => Err(PatternDefect),
        }
    }

    /// Anchors the pattern against the full namespace string and compiles
    /// it; a namespace is then excluded only when the whole of it matches.
    pub fn compile(pattern: &str) -> (r: Result<ExcludePattern, PatternDefect>)
        ensures
            r is Ok <==> regex_valid(anchored_pattern(pattern@)),
            (r matches Ok(p) ==> p.pattern_view() == anchored_pattern(pattern@)),
    {
        let full = "^(?:".to_owned().concat(pattern).concat(")$");
        proof {
            assert(full@ =~= anchored_pattern(pattern@));
        }
        Self::compile_raw(full.as_str())
    }

    /// Relies on regex::Regex::is_match: reports whether the compiled
    /// pattern matches anywhere in the text.
    #[verifier::external_body]
    pub fn is_match(&self, text: &str) -> (r: bool)
        ensures
            r == regex_match(self.pattern_view(), text@),
    {
        self.re.is_match(text)
    }
}

/// The default exclusion pattern, protecting platform-reserved namespaces.
pub fn default_exclude_pattern() -> (r: &'static str)
    ensures
        r@ == "(openshift.*)|(kube.*)"@,
{
    "(openshift.*)|(kube.*)"
}

/// The default age threshold, in days.
pub const DEFAULT_OLDER_THAN_DAYS: i8 = 3;

/// A pod's age in whole days at time `now`, truncated toward zero, both
/// instants in unix seconds.
pub open spec fn age_days(now: int, created: int) -> int {
    if now >= created {
        (now - created) / 86400
    } else {
        -((created - now) / 86400)
    }
}

/// Computes a pod's age in whole days, truncated toward zero.
pub fn age_days_of(now: i64, created: i64) -> (d: i64)
    ensures
        d as int == age_days(now as int, created as int),
{
    if now >= created {
        let diff: u128 = (now as i128 - created as i128) as u128;
        let q: u128 = diff / 86400;
        proof {
            lemma_div_is_ordered(diff as int, u64::MAX as int, 86400);
        }
        q as i64
    } else {
        let diff: u128 = (created as i128 - now as i128) as u128;
        let q: u128 = diff / 86400;
        proof {
            lemma_div_is_ordered(diff as int, u64::MAX as int, 86400);
        }
        -(q as i64)
    }
}

/// Whether one pod is selected for deletion: its namespace does not match
/// the exclusion pattern, it carries a creation timestamp, and its age in
/// whole days strictly exceeds the threshold.
pub open spec fn pod_selected(
    p: PodCandidate,
    pattern: Seq<char>,
    older_than: int,
    now: int,
) -> bool {
    &&& !regex_match(pattern, p.namespace@)
    &&& match p.created_at_secs {
        Option::Some(created) => age_days(now, created as int) > older_than,
        Option::None => false,
    }
}

/// The identities selected from a pod list, in listing order.
pub open spec fn selected_ids(
    pods: Seq<PodCandidate>,
    pattern: Seq<char>,
    older_than: int,
    now: int,
) -> Seq<(Seq<char>, Seq<char>)>
    decreases pods.len(),
{
    if pods.len() == 0 {
        Seq::empty()
    } else {
        let rest = selected_ids(pods.drop_last(), pattern, older_than, now);
        if pod_selected(pods.last(), pattern, older_than, now) {
            rest.push(pod_id_view(pods.last()))
        } else {
            rest
        }
    }
}

/// One step of the selection, over a growing prefix of the pod list.
proof fn lemma_selected_ids_step(
    pods: Seq<PodCandidate>,
    i: int,
    pattern: Seq<char>,
    older_than: int,
    now: int,
)
    requires
        0 <= i < pods.len(),
    ensures
        selected_ids(pods.take(i + 1), pattern, older_than, now) == (if pod_selected(
            pods[i],
            pattern,
            older_than,
            now,
        ) {
            selected_ids(pods.take(i), pattern, older_than, now).push(pod_id_view(pods[i]))
        } else {
            selected_ids(pods.take(i), pattern, older_than, now)
        }),
{
    assert(pods.take(i + 1).drop_last() =~= pods.take(i));
    assert(pods.take(i + 1).last() == pods[i]);
}

/// Selects the stale pods from one listing: the deletion batch contains
/// exactly the identities of the selected pods, in listing order.
pub fn filter_pods(
    pods: &Vec<PodCandidate>,
    exclude: &ExcludePattern,
    older_than: i8,
    now: i64,
) -> (batch: Vec<PodIdentity>)
    ensures
        ids_of(batch@) == selected_ids(pods@, exclude.pattern_view(), older_than as int, now as int),
{
    let ghost pattern = exclude.pattern_view();
    let mut batch: Vec<PodIdentity> = Vec::new();
    let mut i: usize = 0;
    while i < pods.len()
        invariant
            i <= pods.len(),
            ids_of(batch@) == selected_ids(pods@.take(i as int), pattern, older_than as int, now as int),
            exclude.pattern_view() == pattern,
        decreases pods.len() - i,
    {
        let pod = &pods[i];
        let excluded = exclude.is_match(pod.namespace.as_str());
        let mut selected = false;
        if !excluded {
            if let Option::Some(c) = pod.created_at_secs {
                let d = age_days_of(now, c);
                if d > older_than as i64 {
                    selected = true;
                }
            }
        }
        proof {
            lemma_selected_ids_step(pods@, i as int, pattern, older_than as int, now as int);
            assert(selected == pod_selected(pods@[i as int], pattern, older_than as int, now as int));
        }
        if selected {
            let id = PodIdentity { namespace: pod.namespace.clone(), name: pod.name.clone() };
            proof {
                assert(ids_of(batch@.push(id)) =~= ids_of(batch@).push(pod_id_view(pods@[i as int])));
            }
            batch.push(id);
        }
        i = i + 1;
    }
    proof {
        assert(pods@.take(pods@.len() as int) =~= pods@);
    }
    batch
}

/// Relies on chrono::Utc::now and DateTime::timestamp: the current wall
/// clock, in unix seconds. Nothing can be promised of the value itself.
#[verifier::external_body]
fn unix_now_secs() -> (now: i64) {
    chrono::Utc::now().timestamp()
}

/// Runs the selection against the current wall clock: reads the clock once
/// and selects exactly the pods that are stale at that instant.
pub fn select_stale(
    pods: &Vec<PodCandidate>,
    exclude: &ExcludePattern,
    older_than: i8,
) -> (r: (i64, Vec<PodIdentity>))
    ensures
        ids_of(r.1@) == selected_ids(pods@, exclude.pattern_view(), older_than as int, r.0 as int),
{
    let now = unix_now_secs();
    let batch = filter_pods(pods, exclude, older_than, now);
    (now, batch)
}

/// Every identity in the selection stems from a selected pod of the
/// listing: returns the index of one pod that contributed entry `k`.
pub proof fn lemma_selected_id_source(
    pods: Seq<PodCandidate>,
    pattern: Seq<char>,
    older_than: int,
    now: int,
    k: int,
) -> (j: int)
    requires
        0 <= k < selected_ids(pods, pattern, older_than, now).len(),
    ensures
        0 <= j < pods.len(),
        pod_selected(pods[j], pattern, older_than, now),
        selected_ids(pods, pattern, older_than, now)[k] == pod_id_view(pods[j]),
    decreases pods.len(),
{
    let prefix = pods.drop_last();
    let sel_prefix = selected_ids(prefix, pattern, older_than, now);
    if k < sel_prefix.len() {
        let j = lemma_selected_id_source(prefix, pattern, older_than, now, k);
        assert(prefix[j] == pods[j]);
        j
    } else {
        assert(pods.last() == pods[pods.len() - 1]);
        pods.len() - 1
    }
}

/// Every selected pod of the listing contributes its identity to the
/// selection.
pub proof fn lemma_selected_ids_complete(
    pods: Seq<PodCandidate>,
    pattern: Seq<char>,
    older_than: int,
    now: int,
    j: int,
)
    requires
        0 <= j < pods.len(),
        pod_selected(pods[j], pattern, older_than, now),
    ensures
        selected_ids(pods, pattern, older_than, now).contains(pod_id_view(pods[j])),
    decreases pods.len(),
{
    let sel = selected_ids(pods, pattern, older_than, now);
    let sel_prefix = selected_ids(pods.drop_last(), pattern, older_than, now);
    if j == pods.len() - 1 {
        assert(pods.last() == pods[j]);
        assert(sel[sel.len() - 1] == pod_id_view(pods[j]));
    } else {
        assert(pods.drop_last()[j] == pods[j]);
        lemma_selected_ids_complete(pods.drop_last(), pattern, older_than, now, j);
        let k = choose|k: int| 0 <= k < sel_prefix.len() && sel_prefix[k] == pod_id_view(pods[j]);
        assert(sel[k] == pod_id_view(pods[j]));
    }
}

/// Law: a pod in a namespace that matches the exclusion pattern is never
/// selected, regardless of its age.
pub proof fn lemma_excluded_namespace_never_selected(
    pods: Seq<PodCandidate>,
    pattern: Seq<char>,
    older_than: int,
    now: int,
    id: (Seq<char>, Seq<char>),
)
    requires
        regex_match(pattern, id.0),
    ensures
        !selected_ids(pods, pattern, older_than, now).contains(id),
{
    let sel = selected_ids(pods, pattern, older_than, now);
    if sel.contains(id) {
        let k = choose|k: int| 0 <= k < sel.len() && sel[k] == id;
        let j = lemma_selected_id_source(pods, pattern, older_than, now, k);
        assert(id.0 == pods[j].namespace@);
        assert(!regex_match(pattern, pods[j].namespace@));
    }
}

/// Whether the pods of a listing all have distinct identities, as a listing
/// of distinct cluster objects does.
pub open spec fn distinct_pod_ids(pods: Seq<PodCandidate>) -> bool {
    forall|i: int, j: int|
        0 <= i < j < pods.len() ==> pod_id_view(pods[i]) != pod_id_view(pods[j])
}

/// Law: over a listing with distinct pod identities, the deletion batch has
/// no duplicates -- selection is over unique pod identity.
pub proof fn lemma_selection_distinct(
    pods: Seq<PodCandidate>,
    pattern: Seq<char>,
    older_than: int,
    now: int,
)
    requires
        distinct_pod_ids(pods),
    ensures
        forall|k: int, l: int|
            0 <= k < l < selected_ids(pods, pattern, older_than, now).len()
                ==> selected_ids(pods, pattern, older_than, now)[k] != selected_ids(
                pods,
                pattern,
                older_than,
                now,
            )[l],
    decreases pods.len(),
{
    if pods.len() > 0 {
        let prefix = pods.drop_last();
        assert(forall|i: int, j: int|
            0 <= i < j < prefix.len() ==> pod_id_view(prefix[i]) != pod_id_view(prefix[j]));
        lemma_selection_distinct(prefix, pattern, older_than, now);
        let sel = selected_ids(pods, pattern, older_than, now);
        let sel_prefix = selected_ids(prefix, pattern, older_than, now);
        if pod_selected(pods.last(), pattern, older_than, now) {
            let last_id = pod_id_view(pods.last());
            assert forall|k: int| 0 <= k < sel_prefix.len() implies sel_prefix[k] != last_id by {
                let j = lemma_selected_id_source(prefix, pattern, older_than, now, k);
                assert(prefix[j] == pods[j]);
                assert(pod_id_view(pods[j]) != pod_id_view(pods[pods.len() - 1]));
            }
        }
    }
}

} // verus!
