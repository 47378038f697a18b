//! The apply reconciler as a state machine over resource existence. The
//! probe, create and patch calls themselves are network work performed by
//! the surrounding process; the decision and its idempotence live here.

use vstd::prelude::*;
use vstd::string::StringExecFns;

use crate::crd::Authentik;
use crate::deployment::DeploymentModel;
use crate::error::ReconcileError;

verus! {

/// What one reconcile pass does to the probed resource.
#[derive(Clone, Copy, Debug, PartialEq, Eq, Structural)]
pub enum Action {
    /// The resource is absent: create it from the full desired manifest.
    Create,
    /// The resource is present: apply the desired manifest as a forced
    /// server-side patch, this operator being the sole authoritative field
    /// manager for the fields it sets.
    Patch,
}

/// The observed cluster state of the derived resource.
pub enum ClusterState {
    Absent,
    Present(DeploymentModel),
}

/// The action one pass takes for an observed state.
pub open spec fn spec_plan(s: ClusterState) -> Action {
    match s {
        ClusterState::Absent => Action::Create,
        ClusterState::Present(_) => Action::Patch,
    }
}

/// The state after applying the desired manifest: present with exactly the
/// desired manifest, whatever was observed (force semantics override
/// conflicting fields set by other managers).
pub open spec fn spec_apply(desired: DeploymentModel, s: ClusterState) -> ClusterState {
    ClusterState::Present(desired)
}

/// Decides create versus patch from the probe's outcome.
pub fn plan_apply(exists: bool) -> (a: Action)
    ensures
        a == (if exists {
            Action::Patch
        } else {
            Action::Create
        }),
        forall|d: DeploymentModel| exists ==> a == spec_plan(ClusterState::Present(d)),
        !exists ==> a == spec_plan(ClusterState::Absent),
{
    if exists {
        Action::Patch
    } else {
        Action::Create
    }
}

/// Idempotence of apply: one application leaves the resource present with
/// the desired manifest, and applying the same manifest again yields the
/// same end state, whatever state was observed first — safe to retry
/// unboundedly.
pub proof fn lemma_apply_idempotent(desired: DeploymentModel, s: ClusterState)
    ensures
        spec_apply(desired, s) == ClusterState::Present(desired),
        spec_apply(desired, spec_apply(desired, s)) == spec_apply(desired, s),
{
}

/// The field manager this operator applies patches under.
pub fn field_manager() -> (r: &'static str)
    ensures
        r@ == "authentik.ak-operator"@,
{
    "authentik.ak-operator"
}

/// Checks the instance object before any network call: the instance name
/// and namespace must both be assigned. Returns them, or the build error
/// naming what is missing.
pub fn reconcile_prepare(obj: &Authentik) -> (r: Result<(String, String), ReconcileError>)
    ensures
        r is Ok <==> (obj.metadata.name is Some && obj.metadata.namespace is Some),
        r is Ok ==> r->Ok_0.0@ == obj.metadata.name->Some_0@ && r->Ok_0.1@
            == obj.metadata.namespace->Some_0@,
        obj.metadata.name is None ==> (r matches Err(ReconcileError::InvalidObj(m)) && m@
            == "Missing instance name."@),
        (obj.metadata.name is Some && obj.metadata.namespace is None) ==> (r matches Err(
            ReconcileError::NoNamespace(n),
        ) && n@ == obj.metadata.name->Some_0@),
{
    let instance = match &obj.metadata.name {
        Some(n) => n.clone(),
        None => {
            return Err(ReconcileError::InvalidObj(String::from_str("Missing instance name.")));
        },
    };
    match &obj.metadata.namespace {
        Some(ns) => Ok((instance, ns.clone())),
        None => Err(ReconcileError::NoNamespace(instance)),
    }
}

/// Explicit cleanup is a no-op: every derived resource carries an owner
/// reference to its instance, so deleting the instance cascades their
/// removal through the cluster's own garbage collection.
pub fn cleanup(obj: &Authentik) -> (r: Result<(), ReconcileError>)
    ensures
        r is Ok,
{
    let _ = obj;
    Ok(())
}

} // verus!
