//! Error taxonomy: build-time failures detected before any network call,
//! cluster-side failures, and the transport/decode failures of the remote
//! REST API, kept as separate variants so the external retry loop can
//! classify them.

use vstd::prelude::*;

verus! {

/// A failure of one reconcile pass. Build errors (`InvalidObj`,
/// `NoNamespace`, `BuildError`) are detected before any network call;
/// `ClusterError` carries a cluster-API failure verbatim.
#[derive(Debug)]
pub enum ReconcileError {
    /// A required identifying field of the instance object is missing.
    InvalidObj(String),
    /// The instance object is not namespaced; carries the instance name.
    NoNamespace(String),
    /// Structural manifest-assembly failure.
    BuildError(String),
    /// Any failure from probing, creating or patching a cluster resource.
    ClusterError(String),
}

/// A transport- or decode-level failure of a remote REST-API operation,
/// shared by every operation so callers can treat "the platform is
/// unreachable" uniformly.
#[derive(Debug)]
pub enum AkApiError {
    /// The HTTP request could not be sent or no response arrived.
    ConnectionError(String),
    /// The response body could not be read to the end.
    StreamError(String),
    /// The response body was not the expected payload.
    SerializeError(String),
}

} // verus!
