//! shopvac: a verified core for a cluster pod-cleanup system.
//!
//! The library has two halves. A reconciler half turns one `CleanerInstance`
//! (a declarative cleanup policy) into the desired state of its three child
//! objects -- a service account, a role binding, and a cron-style schedule
//! object -- together with the requeue policy that drives retries. A sweep
//! half selects stale pods (by namespace-exclusion pattern and age) and plans
//! their deletion under a concurrency bound, with an explicit dry-run mode.
//!
//! All cluster I/O (list, apply-patch, delete, watch) stays outside the
//! library; callers hand in plain values and carry the returned descriptors
//! and plans to the cluster API.

pub mod filter;
pub mod model;
pub mod policy;
pub mod reconcile;
pub mod sweep;
pub mod templates;
pub mod timeout;
