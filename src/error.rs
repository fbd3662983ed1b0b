//! The errors that a reconcile can end with.
use vstd::prelude::*;

verus! {

/// Why a reconcile did not complete. Every kind is retried by the controller.
#[derive(Debug, Clone, PartialEq, Eq)]
pub enum ReconcileError {
    /// A call to the Kubernetes API failed; the text says how.
    KubeError(String),
    /// No exit node could be assigned to the service.
    NoAvailableExitNodes,
    /// The service lists no ports.
    NoPortsSet,
    /// The service has no cluster IP.
    NoClusterIP,
    /// The provisioner named by an annotation does not exist.
    CloudProvisionerNotFound,
    /// The credentials secret of a provisioner does not exist.
    CloudProvisionerSecretNotFound,
    /// A managed exit node names no tunnel auth secret.
    ManagedExitNodeNoPasswordSet,
    /// The tunnel auth secret has no `auth` key.
    AuthFieldNotSet,
    /// A cloud provider call failed; the text says how.
    CloudApi(String),
}

impl ReconcileError {
    /// A message for logs: the text carried by an API error, else a fixed sentence.
    pub fn message(&self) -> (r: String)
        ensures
            self matches ReconcileError::KubeError(m) ==> r == m,
            self matches ReconcileError::CloudApi(m) ==> r == m,
    {
        match self {
            ReconcileError::KubeError(m) => m.clone(),
            ReconcileError::NoAvailableExitNodes => String::from_str("There are no exit nodes available to assign"),
            ReconcileError::NoPortsSet => String::from_str("There are no ports set on this LoadBalancer"),
            ReconcileError::NoClusterIP => String::from_str("The service has no cluster IP"),
            ReconcileError::CloudProvisionerNotFound => String::from_str("The provided cloud provisioner was not found in the cluster"),
            ReconcileError::CloudProvisionerSecretNotFound => String::from_str("The secret keys for the cloud provisioner were not found in the cluster"),
            ReconcileError::ManagedExitNodeNoPasswordSet => String::from_str("The managed exit node has no auth secret set"),
            ReconcileError::AuthFieldNotSet => String::from_str("The auth secret of the exit node has no auth field"),
            ReconcileError::CloudApi(m) => m.clone(),
        }
    }
}

} // verus!
