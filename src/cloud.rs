//! Cloud provisioners: what the operator hands each cloud and reads back.
use vstd::prelude::*;
use vstd::utf8::{valid_utf8, decode_utf8};
use crate::error::ReconcileError;
use crate::kv::{find_key, lookup};
use crate::ops::{provisioner_ref, parse_provisioner_label_value, ExitNode, ExitNodeStatus, Secret};
use crate::search::{first_index, lemma_first_index};

pub mod aws;
pub mod cloud_init;
pub mod digitalocean;
pub mod linode;
pub mod pwgen;

verus! {

/// The clouds that exit nodes can be provisioned on.
#[derive(Debug, Clone, Copy, PartialEq, Eq, Structural)]
pub enum CloudProvider {
    DigitalOcean,
    Linode,
    AWS,
}

/// Default control port of a tunnel server.
pub const CHISEL_PORT: u16 = 9090;

/// Relies on std's `String::from_utf8`: it succeeds exactly on valid UTF-8,
/// with the characters that the bytes encode.
#[verifier::external_body]
fn string_from_utf8(b: Vec<u8>) -> (r: Option<String>)
    ensures
        r is Some <==> valid_utf8(b@),
        r matches Some(s) ==> s@ == decode_utf8(b@),
{
    String::from_utf8(b).ok()
}

/// The text stored under `key` in a secret's data, if the key is there and its
/// bytes are valid UTF-8.
pub open spec fn secret_text(data: Seq<(String, Vec<u8>)>, key: Seq<char>) -> Option<Seq<char>> {
    match lookup(data, key) {
        Some(b) => if valid_utf8(b@) {
            Some(decode_utf8(b@))
        } else {
            None
        },
        None => None,
    }
}

/// Reads the text under `key` of a credentials secret. A missing key is a
/// missing credential; bytes that are not UTF-8 are a cloud API error.
pub fn secret_string(secret: &Secret, key: &str) -> (r: Result<String, ReconcileError>)
    ensures
        r matches Ok(s) ==> secret_text(secret.data@, key@) == Some(s@),
        r is Ok <==> secret_text(secret.data@, key@) is Some,
        lookup(secret.data@, key@) is None <==> r == Err::<String, ReconcileError>(
            ReconcileError::CloudProvisionerSecretNotFound,
        ),
{
    match find_key(&secret.data, key) {
        Some(i) => {
            let bytes = secret.data[i].1.clone();
            match string_from_utf8(bytes) {
                Some(s) => Ok(s),
                None => {
                    let mut m = String::from_str("the value of ");
                    m.append(key);
                    m.append(" is not valid UTF-8");
                    Err(ReconcileError::CloudApi(m))
                },
            }
        },
        None => Err(ReconcileError::CloudProvisionerSecretNotFound),
    }
}

/// Tag that marks a machine as made by a provisioner.
pub const PROVISIONER_TAG_PREFIX: &'static str = "chisel-operator-provisioner:";

/// The tag of the machines made by the provisioner that `provisioner` denotes.
pub fn provisioner_tag(provisioner: &str) -> (r: String)
    ensures
        r@ == PROVISIONER_TAG_PREFIX@ + provisioner@,
{
    let mut s = String::from_str(PROVISIONER_TAG_PREFIX);
    s.append(provisioner);
    s
}

/// The machine name of an exit node: `<provisioner name>-<exit node name>`,
/// where the provisioner reference `provisioner` is read in the exit node's namespace.
pub fn vm_name(node: &ExitNode, provisioner: &str) -> (r: String)
    ensures
        r@ == provisioner_ref(node.namespace@, provisioner@).1 + "-"@ + node.name@,
{
    let (_namespace, name) = parse_provisioner_label_value(node.namespace.as_str(), provisioner);
    let mut s = name;
    s.append("-");
    s.append(node.name.as_str());
    s
}

/// The cloud identifier of an exit node's machine, if it has one.
pub fn machine_id(node: &ExitNode) -> (r: Option<String>)
    ensures
        r == match node.status {
            Some(s) => s.id,
            None => None,
        },
{
    match &node.status {
        Some(s) => match &s.id {
            Some(id) => Some(id.clone()),
            None => None,
        },
        None => None,
    }
}

/// A status refreshed with the public IP observed on the machine; without one
/// the status stays as it was.
pub open spec fn refreshed(status: ExitNodeStatus, observed_ip: Option<String>) -> ExitNodeStatus {
    match observed_ip {
        Some(ip) => ExitNodeStatus { ip, ..status },
        None => status,
    }
}

/// A status refreshed with the public IP observed on the machine.
pub fn refresh_status(status: ExitNodeStatus, observed_ip: Option<String>) -> (r: ExitNodeStatus)
    ensures
        r == refreshed(status, observed_ip),
{
    let mut s = status;
    match observed_ip {
        Some(ip) => {
            s.ip = ip;
        },
        None => {},
    }
    s
}

/// One network address of a machine: its kind (`public`, `private`) and address.
#[derive(Debug, Clone)]
pub struct NetworkAddress {
    pub kind: String,
    pub address: String,
}

/// Whether an address is a public one.
pub open spec fn is_public() -> spec_fn(NetworkAddress) -> bool {
    |n: NetworkAddress| n.kind@ == "public"@
}

/// The first public address among a machine's addresses.
pub fn public_address(networks: &Vec<NetworkAddress>) -> (r: Option<String>)
    ensures
        match first_index(networks@, is_public()) {
            Some(i) => r == Some(networks@[i].address),
            None => r is None,
        },
{
    let public = String::from_str("public");
    let mut i: usize = 0;
    while i < networks.len()
        invariant
            i <= networks@.len(),
            public@ == "public"@,
            forall|j: int| 0 <= j < i ==> !is_public()(#[trigger] networks@[j]),
        decreases networks@.len() - i,
    {
        if networks[i].kind == public {
            proof { lemma_first_index(networks@, is_public(), i as int); }
            return Some(networks[i].address.clone());
        }
        i = i + 1;
    }
    assert(!(exists|j: int| 0 <= j < networks@.len() && #[trigger] is_public()(networks@[j])));
    None
}

} // verus!
