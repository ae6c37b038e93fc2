//! Reconciler core: the decision half of one reconcile pass.
//!
//! A pass validates the instance's identity metadata, then computes the
//! desired state of the three children in their fixed apply order (service
//! account, role binding, schedule object), so permissions exist before any
//! job can run under them. The caller applies each descriptor with a
//! server-side-apply patch and reports the outcome; any step's failure aborts
//! the remaining steps for the pass, and a later pass retries from the start,
//! which is safe because the desired state is a pure function of the
//! instance.

use vstd::prelude::*;
use crate::model::{CleanerInstance, CleanerSpecView, InstanceIdentity, InstanceIdentityView};
use crate::templates::{
    build_cron_job, build_role_binding, build_service_account, desired_cron_job,
    desired_role_binding, desired_service_account, owner_ref_spec, CronJobDesc, CronJobView,
    RoleBindingDesc, RoleBindingView, ServiceAccountDesc, ServiceAccountView,
};

verus! {

/// A reconcile pass cannot proceed without the instance's identity metadata.
/// The defect is transient by design: the control loop has no way to reject a
/// malformed instance, so it reports the failure and requeues fast.
#[derive(Clone, Copy, Debug, PartialEq, Eq, Structural)]
pub enum ConfigDefect {
    /// `.metadata.namespace` is absent.
    MissingNamespace,
    /// `.metadata.name` is absent.
    MissingName,
    /// `.metadata.uid` is absent.
    MissingUid,
}

/// The desired state of one instance's children, in apply order.
#[derive(Debug)]
pub struct ReconcilePlan {
    pub service_account: ServiceAccountDesc,
    pub role_binding: RoleBindingDesc,
    pub cron_job: CronJobDesc,
}

/// Ghost view of `ReconcilePlan`.
pub ghost struct ReconcilePlanView {
    pub service_account: ServiceAccountView,
    pub role_binding: RoleBindingView,
    pub cron_job: CronJobView,
}

impl View for ReconcilePlan {
    type V = ReconcilePlanView;

    open spec fn view(&self) -> ReconcilePlanView {
        ReconcilePlanView {
            service_account: self.service_account@,
            role_binding: self.role_binding@,
            cron_job: self.cron_job@,
        }
    }
}

/// The full desired child state of one instance.
pub open spec fn desired_children(id: InstanceIdentityView, s: CleanerSpecView) -> ReconcilePlanView {
    ReconcilePlanView {
        service_account: desired_service_account(id),
        role_binding: desired_role_binding(id),
        cron_job: desired_cron_job(id, s),
    }
}

/// Whether an observed instance carries all required identity metadata.
pub open spec fn has_identity(i: crate::model::CleanerInstanceView) -> bool {
    &&& i.namespace is Some
    &&& i.name is Some
    &&& i.uid is Some
}

/// The identity of an instance whose required metadata is all present.
pub open spec fn identity_of(i: crate::model::CleanerInstanceView) -> InstanceIdentityView
    recommends
        has_identity(i),
{
    InstanceIdentityView {
        namespace: i.namespace->0,
        name: i.name->0,
        uid: i.uid->0,
    }
}

/// Computes the desired child state for one reconcile pass.
///
/// Returns the three descriptors in apply order when the instance carries
/// its identity metadata; otherwise reports which required field is absent,
/// checking the namespace first, then the name, then the uid.
pub fn plan_reconcile(instance: &CleanerInstance) -> (r: Result<ReconcilePlan, ConfigDefect>)
    ensures
        (r matches Ok(plan) ==> has_identity(instance@) && plan@ == desired_children(
            identity_of(instance@),
            instance@.spec,
        )),
        r is Ok <==> has_identity(instance@),
        (r matches Err(d) ==> match d {
            ConfigDefect::MissingNamespace => instance@.namespace is None,
            ConfigDefect::MissingName => instance@.namespace is Some && instance@.name is None,
            ConfigDefect::MissingUid => instance@.namespace is Some && instance@.name is Some
                && instance@.uid is None,
        }),
{
    let namespace = match &instance.namespace {
        Option::Some(n) => n.clone(),
        Option::None => {
            return Result::Err(ConfigDefect::MissingNamespace);
        },
    };
    let name = match &instance.name {
        Option::Some(n) => n.clone(),
        Option::None => {
            return Result::Err(ConfigDefect::MissingName);
        },
    };
    let uid = match &instance.uid {
        Option::Some(u) => u.clone(),
        Option::None => {
            return Result::Err(ConfigDefect::MissingUid);
        },
    };
    let id = InstanceIdentity { namespace, name, uid };
    let plan = ReconcilePlan {
        service_account: build_service_account(&id),
        role_binding: build_role_binding(&id),
        cron_job: build_cron_job(&id, &instance.spec),
    };
    Result::Ok(plan)
}

/// Law: reconciling an unchanged instance twice produces identical
/// desired-state descriptors both times -- the desired children are a
/// function of the instance value alone, so repeated passes cannot drift or
/// duplicate children.
pub proof fn lemma_reconcile_idempotent(
    id_first: InstanceIdentityView,
    id_second: InstanceIdentityView,
    spec_first: CleanerSpecView,
    spec_second: CleanerSpecView,
)
    requires
        id_first == id_second,
        spec_first == spec_second,
    ensures
        desired_children(id_first, spec_first) == desired_children(id_second, spec_second),
{
}

/// Law: every generated child's owner-reference set contains exactly one
/// entry, and that entry names the originating instance's identity and marks
/// it as the controller.
pub proof fn lemma_children_owned_by_instance(id: InstanceIdentityView, s: CleanerSpecView)
    ensures
        desired_children(id, s).service_account.owners == seq![owner_ref_spec(id)],
        desired_children(id, s).role_binding.owners == seq![owner_ref_spec(id)],
        desired_children(id, s).cron_job.owners == seq![owner_ref_spec(id)],
        owner_ref_spec(id).name == id.name,
        owner_ref_spec(id).uid == id.uid,
        owner_ref_spec(id).controller,
{
}

} // verus!
