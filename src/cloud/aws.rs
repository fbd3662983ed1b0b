//! The AWS provisioner.
use vstd::prelude::*;
use crate::cloud::{secret_string, secret_text};
use crate::error::ReconcileError;
use crate::ops::Secret;

verus! {

/// Default instance type of an exit node.
pub const DEFAULT_SIZE: &'static str = "t2.micro";
/// Parameter store key of the Ubuntu image id.
pub const UBUNTU_AMI_SSM_KEY: &'static str = "/aws/service/canonical/ubuntu/server/24.04/stable/current/amd64/hvm/ebs-gp2/ami-id";
/// Secret key of the access key id.
pub const ACCESS_KEY_ID_KEY: &'static str = "AWS_ACCESS_KEY_ID";
/// Secret key of the secret access key.
pub const SECRET_ACCESS_KEY_KEY: &'static str = "AWS_SECRET_ACCESS_KEY";

/// The instance type used when a provisioner names none.
pub fn default_size() -> (r: String)
    ensures
        r@ == DEFAULT_SIZE@,
{
    String::from_str(DEFAULT_SIZE)
}

/// Provisions exit nodes as EC2 instances.
#[derive(Debug, Clone)]
pub struct AWSProvisioner {
    /// Name of the secret that holds the access keys.
    pub auth: String,
    /// Region of the instances.
    pub region: String,
    /// Security group of the instances; the default one when absent.
    pub security_group: Option<String>,
    /// Instance type.
    pub size: String,
}

/// Credentials and region for the AWS APIs.
#[derive(Debug, Clone)]
pub struct AWSIdentity {
    access_key_id: String,
    secret_access_key: String,
    pub region: String,
}

impl AWSIdentity {
    /// The key id.
    pub closed spec fn key_id(&self) -> String {
        self.access_key_id
    }

    /// The region.
    pub closed spec fn region_of(&self) -> String {
        self.region
    }

    /// The secret key.
    pub closed spec fn secret_key(&self) -> String {
        self.secret_access_key
    }

    pub fn new(access_key_id: String, secret_access_key: String, region: String) -> (r: Self)
        ensures
            r.key_id() == access_key_id,
            r.secret_key() == secret_access_key,
            r.region_of() == region,
    {
        Self { access_key_id, secret_access_key, region }
    }

    /// The access key id.
    pub fn access_key_id(&self) -> (r: &String)
        ensures
            *r == self.key_id(),
    {
        &self.access_key_id
    }

    /// The secret access key.
    pub fn secret_access_key(&self) -> (r: &String)
        ensures
            *r == self.secret_key(),
    {
        &self.secret_access_key
    }

    /// Reads both access keys from `secret`.
    pub fn from_secret(secret: &Secret, region: String) -> (r: Result<Self, ReconcileError>)
        ensures
            r is Ok <==> (secret_text(secret.data@, ACCESS_KEY_ID_KEY@) is Some && secret_text(
                secret.data@,
                SECRET_ACCESS_KEY_KEY@,
            ) is Some),
            r matches Ok(id) ==> {
                &&& secret_text(secret.data@, ACCESS_KEY_ID_KEY@) == Some(id.key_id()@)
                &&& secret_text(secret.data@, SECRET_ACCESS_KEY_KEY@) == Some(id.secret_key()@)
                &&& id.region_of() == region
            },
    {
        let access_key_id = secret_string(secret, ACCESS_KEY_ID_KEY)?;
        let secret_access_key = secret_string(secret, SECRET_ACCESS_KEY_KEY)?;
        Ok(Self { access_key_id, secret_access_key, region })
    }
}

} // verus!
