//! The DigitalOcean provisioner.
use vstd::prelude::*;
use crate::cloud::{secret_string, secret_text};
use crate::error::ReconcileError;
use crate::ops::Secret;

verus! {

/// Droplet size of an exit node.
pub const DROPLET_SIZE: &'static str = "s-1vcpu-1gb";
/// Droplet image of an exit node.
pub const DROPLET_IMAGE: &'static str = "ubuntu-23-04-x64";
/// Secret key of the API token.
pub const TOKEN_KEY: &'static str = "DIGITALOCEAN_TOKEN";

/// Provisions exit nodes as DigitalOcean droplets.
#[derive(Debug, Clone)]
pub struct DigitalOceanProvisioner {
    /// Region of the droplets; empty lets DigitalOcean choose.
    pub region: String,
    /// Name of the secret that holds the API token.
    pub auth: String,
    /// SSH key fingerprints to install on the droplets.
    pub ssh_fingerprints: Vec<String>,
}

impl DigitalOceanProvisioner {
    /// The API token stored in `secret`.
    pub fn get_token(&self, secret: &Secret) -> (r: Result<String, ReconcileError>)
        ensures
            r matches Ok(s) ==> secret_text(secret.data@, TOKEN_KEY@) == Some(s@),
            r is Ok <==> secret_text(secret.data@, TOKEN_KEY@) is Some,
    {
        secret_string(secret, TOKEN_KEY)
    }
}

} // verus!
