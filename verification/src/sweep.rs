//! Delete fan-out engine: issues one delete per selected identity with a
//! hard cap on simultaneously outstanding calls, and an explicit dry-run
//! mode that reports the batch without issuing anything.
//!
//! The engine itself is a state machine over plain values: the caller asks
//! for the next step, performs the actual delete call, and hands the
//! per-identity outcome back. A single identity's failure is recorded and
//! never blocks or cancels sibling calls.

use vstd::prelude::*;
use crate::filter::{filter_pods, selected_ids, ExcludePattern};
use crate::model::{id_view, ids_of, PodCandidate, PodIdentity};

verus! {

/// The default cap on simultaneously outstanding delete calls.
pub const DEFAULT_CONCURRENCY_LIMIT: usize = 10;

/// The recorded outcome of one delete call: acceptance of the deletion
/// request, not completion of the pod's termination.
#[derive(Debug)]
pub struct DeleteRecord {
    pub pod: PodIdentity,
    pub accepted: bool,
}

/// Ghost view of `DeleteRecord`.
pub ghost struct DeleteRecordView {
    pub pod: (Seq<char>, Seq<char>),
    pub accepted: bool,
}

impl View for DeleteRecord {
    type V = DeleteRecordView;

    open spec fn view(&self) -> DeleteRecordView {
        DeleteRecordView { pod: id_view(self.pod), accepted: self.accepted }
    }
}

/// Bounded-concurrency delete fan-out over one deletion batch.
pub struct FanOut {
    pending: Vec<PodIdentity>,
    in_flight: usize,
    limit: usize,
    results: Vec<DeleteRecord>,
}

/// What the caller is to do next with a fan-out in progress.
#[derive(Clone, Copy, Debug, PartialEq, Eq, Structural)]
pub enum SweepStep {
    /// Capacity is free and work remains: launch the next delete call.
    Launch,
    /// The cap is reached or only in-flight work remains: await one
    /// completion and record it.
    AwaitOne,
    /// Every identity has been launched and every call has completed.
    Finished,
}

impl FanOut {
    /// The identities not yet handed out for deletion.
    pub closed spec fn pending_ids(&self) -> Seq<(Seq<char>, Seq<char>)> {
        ids_of(self.pending@)
    }

    /// How many delete calls are outstanding at this instant.
    pub closed spec fn in_flight_count(&self) -> int {
        self.in_flight as int
    }

    /// The cap on simultaneously outstanding calls.
    pub closed spec fn limit_of(&self) -> int {
        self.limit as int
    }

    /// The recorded per-identity outcomes, in completion order.
    pub closed spec fn results_view(&self) -> Seq<DeleteRecordView> {
        self.results@.map_values(|r: DeleteRecord| r@)
    }

    /// Law: the concurrency bound. At no point are more calls outstanding
    /// than the limit; every operation of the engine preserves this.
    pub open spec fn wf(&self) -> bool {
        &&& 1 <= self.limit_of()
        &&& self.in_flight_count() <= self.limit_of()
    }

    /// Starts a fan-out over one batch with the given concurrency limit.
    pub fn new(batch: Vec<PodIdentity>, limit: usize) -> (r: FanOut)
        requires
            1 <= limit,
        ensures
            r.wf(),
            r.pending_ids() == ids_of(batch@),
            r.in_flight_count() == 0,
            r.limit_of() == limit,
            r.results_view() == Seq::<DeleteRecordView>::empty(),
    {
        let r = FanOut { pending: batch, in_flight: 0, limit, results: Vec::new() };
        proof {
            assert(r.results_view() =~= Seq::<DeleteRecordView>::empty());
        }
        r
    }

    /// Whether a further delete call may be launched right now: capacity is
    /// free and identities remain.
    pub open spec fn can_launch(&self) -> bool {
        &&& self.in_flight_count() < self.limit_of()
        &&& self.pending_ids().len() > 0
    }

    /// Decides the next step, never exceeding the cap: launch while capacity
    /// and work remain, otherwise drain, otherwise finish.
    pub fn next_step(&self) -> (s: SweepStep)
        requires
            self.wf(),
        ensures
            (s is Launch <==> self.can_launch()),
            (s is AwaitOne <==> !self.can_launch() && self.in_flight_count() > 0),
            (s is Finished <==> self.pending_ids().len() == 0 && self.in_flight_count() == 0),
    {
        if self.in_flight < self.limit && self.pending.len() > 0 {
            SweepStep::Launch
        } else if self.in_flight > 0 {
            SweepStep::AwaitOne
        } else {
            SweepStep::Finished
        }
    }

    /// Hands out the next identity and accounts one more outstanding call.
    /// The bound is preserved: the new in-flight count stays within the
    /// limit.
    pub fn launch(&mut self) -> (id: PodIdentity)
        requires
            old(self).wf(),
            old(self).can_launch(),
        ensures
            final(self).wf(),
            final(self).in_flight_count() == old(self).in_flight_count() + 1,
            final(self).limit_of() == old(self).limit_of(),
            final(self).pending_ids() == old(self).pending_ids().drop_last(),
            id_view(id) == old(self).pending_ids().last(),
            final(self).results_view() == old(self).results_view(),
    {
        let id = self.pending.pop().unwrap();
        self.in_flight = self.in_flight + 1;
        proof {
            assert(self.pending_ids() =~= old(self).pending_ids().drop_last());
        }
        id
    }

    /// Records the outcome of one completed delete call and frees its
    /// capacity. A failed call is aggregated like any other outcome; it
    /// never aborts the batch.
    pub fn complete(&mut self, pod: PodIdentity, accepted: bool)
        requires
            old(self).wf(),
            old(self).in_flight_count() > 0,
        ensures
            final(self).wf(),
            final(self).in_flight_count() == old(self).in_flight_count() - 1,
            final(self).limit_of() == old(self).limit_of(),
            final(self).pending_ids() == old(self).pending_ids(),
            final(self).results_view() == old(self).results_view().push(
                (DeleteRecordView { pod: id_view(pod), accepted }),
            ),
    {
        self.in_flight = self.in_flight - 1;
        let ghost previous = self.results_view();
        let record = DeleteRecord { pod, accepted };
        let ghost record_view = record@;
        self.results.push(record);
        proof {
            assert(self.results_view() =~= previous.push(record_view));
        }
    }

    /// How many identities have not been handed out yet.
    pub fn pending_len(&self) -> (n: usize)
        ensures
            n == self.pending_ids().len(),
    {
        self.pending.len()
    }

    /// How many delete calls are outstanding.
    pub fn in_flight(&self) -> (n: usize)
        ensures
            n as int == self.in_flight_count(),
    {
        self.in_flight
    }

    /// The configured cap.
    pub fn limit(&self) -> (n: usize)
        ensures
            n as int == self.limit_of(),
    {
        self.limit
    }

    /// The outcomes recorded so far, in completion order.
    pub fn results(&self) -> (rs: &Vec<DeleteRecord>)
        ensures
            rs@.map_values(|r: DeleteRecord| r@) == self.results_view(),
    {
        &self.results
    }
}

/// The decision for one whole sweep pass after selection: either a dry-run
/// report or a fan-out to drive.
pub enum SweepPlan {
    /// Dry run: the batch was computed and reported; zero delete calls are
    /// issued.
    DryRun { selected: usize },
    /// Deletions are to be issued through the fan-out engine.
    Delete(FanOut),
}

/// Law: with dry-run set, for any selection, zero delete calls are issued
/// and the reported count equals the selection size; otherwise the fan-out
/// starts with exactly the selected identities, nothing launched yet.
pub fn plan_sweep(batch: Vec<PodIdentity>, actually_delete: bool, limit: usize) -> (plan: SweepPlan)
    requires
        1 <= limit,
    ensures
        (!actually_delete ==> (plan matches SweepPlan::DryRun { selected } && selected
            == batch@.len())),
        (actually_delete ==> (plan matches SweepPlan::Delete(f) && f.wf() && f.pending_ids()
            == ids_of(batch@) && f.in_flight_count() == 0 && f.limit_of() == limit
            && f.results_view() == Seq::<DeleteRecordView>::empty())),
{
    if actually_delete {
        SweepPlan::Delete(FanOut::new(batch, limit))
    } else {
        SweepPlan::DryRun { selected: batch.len() }
    }
}

/// One sweep pass after listing: filter, then either a dry-run report or a
/// fan-out holding exactly the selected identities. Zero delete calls are
/// issued by the pass itself; the caller drives the returned fan-out.
pub fn plan_sweep_pass(
    pods: &Vec<PodCandidate>,
    exclude: &ExcludePattern,
    older_than: i8,
    now: i64,
    actually_delete: bool,
    limit: usize,
) -> (plan: SweepPlan)
    requires
        1 <= limit,
    ensures
        (!actually_delete ==> (plan matches SweepPlan::DryRun { selected } && selected
            == selected_ids(pods@, exclude.pattern_view(), older_than as int, now as int).len())),
        (actually_delete ==> (plan matches SweepPlan::Delete(f) && f.wf() && f.pending_ids()
            == selected_ids(pods@, exclude.pattern_view(), older_than as int, now as int)
            && f.in_flight_count() == 0 && f.limit_of() == limit && f.results_view()
            == Seq::<DeleteRecordView>::empty())),
{
    let batch = filter_pods(pods, exclude, older_than, now);
    plan_sweep(batch, actually_delete, limit)
}

} // verus!
