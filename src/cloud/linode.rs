//! The Linode provisioner.
use vstd::prelude::*;
use crate::cloud::{secret_string, secret_text};
use crate::error::ReconcileError;
use crate::ops::Secret;

verus! {

/// Secret key of the API token.
pub const TOKEN_KEY: &'static str = "LINODE_TOKEN";
/// Default instance type of an exit node.
pub const INSTANCE_TYPE: &'static str = "g6-nanode-1";
/// Image of an exit node.
pub const IMAGE_ID: &'static str = "linode/ubuntu22.04";

/// The instance type used when a provisioner names none.
pub fn default_size() -> (r: String)
    ensures
        r@ == INSTANCE_TYPE@,
{
    String::from_str(INSTANCE_TYPE)
}

/// Provisions exit nodes as Linode instances.
#[derive(Debug, Clone)]
pub struct LinodeProvisioner {
    /// Name of the secret that holds the API token.
    pub auth: String,
    /// Region of the instances.
    pub region: String,
    /// Instance type.
    pub size: String,
}

impl LinodeProvisioner {
    /// The API token stored in `secret`.
    pub fn get_token(&self, secret: &Secret) -> (r: Result<String, ReconcileError>)
        ensures
            r matches Ok(s) ==> secret_text(secret.data@, TOKEN_KEY@) == Some(s@),
            r is Ok <==> secret_text(secret.data@, TOKEN_KEY@) is Some,
    {
        secret_string(secret, TOKEN_KEY)
    }
}

} // verus!
