//! Core logic of an operator for a managed Authentik identity-platform
//! instance: deterministic construction of the desired workload manifest
//! (labels, owner linkage, containers, environment), the idempotent
//! create-or-patch decision against the cluster, and the typed remote
//! operations of the platform's REST API (delete flow, delete stage,
//! create service account) with their status classification.

use vstd::prelude::*;

pub mod akapi;
pub mod crd;
pub mod deployment;
pub mod encoding;
pub mod env;
pub mod error;
pub mod labels;
pub mod reconcile;
pub mod textfmt;

verus! {

/// The fixed prefix every derived resource name starts with.
pub open spec fn name_prefix() -> Seq<char> {
    "authentik-"@
}

} // verus!
