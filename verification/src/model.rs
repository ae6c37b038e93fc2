//! Core data model: the cleaner custom resource, owner references, and the
//! pod identities a sweep works on.
//!
//! Exec types carry plain values; each has a ghost view over `Seq<char>` and
//! mathematical integers, which the contracts of the rest of the library are
//! stated over.

use vstd::prelude::*;

verus! {

/// Desired cleanup policy carried by a cleaner instance: the schedule of the
/// periodic sweep, the age threshold in days, and optional pod selectors.
#[derive(Debug)]
pub struct CleanerSpec {
    /// Cron-style schedule expression for the generated schedule object.
    pub schedule: String,
    /// Pods strictly older than this many whole days are selected.
    pub delete_older_than: i8,
    /// Optional label selector restricting which pods a sweep lists.
    pub label_selector: Option<String>,
    /// Optional field selector restricting which pods a sweep lists.
    pub field_selector: Option<String>,
}

/// Ghost view of `CleanerSpec`.
pub ghost struct CleanerSpecView {
    pub schedule: Seq<char>,
    pub delete_older_than: int,
    pub label_selector: Option<Seq<char>>,
    pub field_selector: Option<Seq<char>>,
}

impl View for CleanerSpec {
    type V = CleanerSpecView;

    open spec fn view(&self) -> CleanerSpecView {
        CleanerSpecView {
            schedule: self.schedule@,
            delete_older_than: self.delete_older_than as int,
            label_selector: match self.label_selector {
                Option::Some(l) => Option::Some(l@),
                Option::None => Option::None,
            },
            field_selector: match self.field_selector {
                Option::Some(f) => Option::Some(f@),
                Option::None => Option::None,
            },
        }
    }
}

/// A cleaner custom-resource instance as observed from the cluster. The
/// metadata fields mirror the object store, where namespace, name and uid are
/// all optional; a reconcile pass rejects an instance that lacks any of them.
#[derive(Debug)]
pub struct CleanerInstance {
    pub namespace: Option<String>,
    pub name: Option<String>,
    pub uid: Option<String>,
    pub spec: CleanerSpec,
}

/// Ghost view of `CleanerInstance`.
pub ghost struct CleanerInstanceView {
    pub namespace: Option<Seq<char>>,
    pub name: Option<Seq<char>>,
    pub uid: Option<Seq<char>>,
    pub spec: CleanerSpecView,
}

impl View for CleanerInstance {
    type V = CleanerInstanceView;

    open spec fn view(&self) -> CleanerInstanceView {
        CleanerInstanceView {
            namespace: match self.namespace {
                Option::Some(n) => Option::Some(n@),
                Option::None => Option::None,
            },
            name: match self.name {
                Option::Some(n) => Option::Some(n@),
                Option::None => Option::None,
            },
            uid: match self.uid {
                Option::Some(u) => Option::Some(u@),
                Option::None => Option::None,
            },
            spec: self.spec@,
        }
    }
}

/// The identity of an instance whose required metadata is all present; the
/// generated children link back to it through their owner reference.
#[derive(Debug)]
pub struct InstanceIdentity {
    pub namespace: String,
    pub name: String,
    pub uid: String,
}

/// Ghost view of `InstanceIdentity`.
pub ghost struct InstanceIdentityView {
    pub namespace: Seq<char>,
    pub name: Seq<char>,
    pub uid: Seq<char>,
}

impl View for InstanceIdentity {
    type V = InstanceIdentityView;

    open spec fn view(&self) -> InstanceIdentityView {
        InstanceIdentityView { namespace: self.namespace@, name: self.name@, uid: self.uid@ }
    }
}

/// A back-link from a generated child object to the instance that produced
/// it; the cluster's garbage collector follows it for cascading deletion.
#[derive(Debug)]
pub struct OwnerRef {
    pub api_version: String,
    pub kind: String,
    pub name: String,
    pub uid: String,
    /// Marks the referenced owner as the managing controller of the child.
    pub controller: bool,
}

/// Ghost view of `OwnerRef`.
pub ghost struct OwnerRefView {
    pub api_version: Seq<char>,
    pub kind: Seq<char>,
    pub name: Seq<char>,
    pub uid: Seq<char>,
    pub controller: bool,
}

impl View for OwnerRef {
    type V = OwnerRefView;

    open spec fn view(&self) -> OwnerRefView {
        OwnerRefView {
            api_version: self.api_version@,
            kind: self.kind@,
            name: self.name@,
            uid: self.uid@,
            controller: self.controller,
        }
    }
}

/// A pod as read during one sweep pass: its identity and its creation time
/// (unix seconds), if the store reported one.
#[derive(Debug)]
pub struct PodCandidate {
    pub namespace: String,
    pub name: String,
    /// Creation timestamp in unix seconds; absent means the age cannot be
    /// computed and the pod is never selected.
    pub created_at_secs: Option<i64>,
}

/// The identity a delete call is addressed to.
#[derive(Debug)]
pub struct PodIdentity {
    pub namespace: String,
    pub name: String,
}

/// The ghost identity of a pod candidate: (namespace, name).
pub open spec fn pod_id_view(p: PodCandidate) -> (Seq<char>, Seq<char>) {
    (p.namespace@, p.name@)
}

/// The ghost identity of a `PodIdentity`: (namespace, name).
pub open spec fn id_view(i: PodIdentity) -> (Seq<char>, Seq<char>) {
    (i.namespace@, i.name@)
}

/// The ghost identities of a whole deletion batch, in order.
pub open spec fn ids_of(batch: Seq<PodIdentity>) -> Seq<(Seq<char>, Seq<char>)> {
    batch.map_values(|i: PodIdentity| id_view(i))
}

} // verus!
