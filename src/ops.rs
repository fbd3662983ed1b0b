//! The custom resources: exit nodes and their provisioners.
use vstd::prelude::*;
use crate::cloud::aws::AWSProvisioner;
use crate::cloud::digitalocean::DigitalOceanProvisioner;
use crate::cloud::linode::LinodeProvisioner;
use crate::cloud::CloudProvider;
use crate::kv::{get_value, contains_key, lookup, has_key};
use crate::text::{lemma_first_index_of, split_once, split_once_spec};

verus! {

/// Label or annotation that binds a service to a named exit node.
pub const EXIT_NODE_NAME_LABEL: &'static str = "chisel-operator.io/exit-node-name";
/// Annotation that names the provisioner of a managed exit node or service.
pub const EXIT_NODE_PROVISIONER_LABEL: &'static str = "chisel-operator.io/exit-node-provisioner";
/// Service annotation that turns on the PROXY protocol for its tunnels.
pub const EXIT_NODE_PROXY_PROTOCOL_ANNOTATION: &'static str = "chisel-operator.io/proxy-protocol";
/// Key of the tunnel credentials in an exit node's auth secret.
pub const AUTH_SECRET_KEY: &'static str = "auth";
/// Variable through which the tunnel client receives its credentials.
pub const AUTH_ENV: &'static str = "AUTH";
/// Provider tag of an exit node that no provisioner manages.
pub const UNMANAGED_PROVISIONER: &'static str = "unmanaged";

/// What a user declares of an exit node.
#[derive(Debug, Clone)]
pub struct ExitNodeSpec {
    /// Hostname or IP address of the tunnel server.
    pub host: String,
    /// Address that clients dial in place of `host`, when set.
    pub external_host: Option<String>,
    /// Control port of the tunnel server.
    pub port: u16,
    /// Fingerprint of the server key that clients check.
    pub fingerprint: Option<String>,
    /// Name of the secret that holds the tunnel credentials under `auth`.
    pub auth: Option<String>,
    /// Client image to run in place of the default one.
    pub chisel_image: Option<String>,
    /// Whether the exit node is the cluster's default route.
    pub default_route: bool,
}

/// The service an exit node serves.
#[derive(Debug, Clone)]
pub struct ServiceBinding {
    pub namespace: String,
    pub name: String,
}

/// What the operator observed of a realised exit node.
#[derive(Debug, Clone)]
pub struct ExitNodeStatus {
    /// The provisioner reference that made it, or `unmanaged`.
    pub provider: String,
    /// Display name of the machine.
    pub name: String,
    /// Public address.
    pub ip: String,
    /// Cloud identifier of the machine.
    pub id: Option<String>,
    pub service_binding: Option<ServiceBinding>,
}

/// An exit node: a tunnel server that clients in the cluster dial out to.
#[derive(Debug, Clone)]
pub struct ExitNode {
    pub name: String,
    pub namespace: String,
    pub annotations: Vec<(String, String)>,
    pub spec: ExitNodeSpec,
    pub status: Option<ExitNodeStatus>,
}

/// Secret data, key by key.
#[derive(Debug, Clone)]
pub struct Secret {
    pub name: String,
    pub namespace: String,
    pub data: Vec<(String, Vec<u8>)>,
}

/// The tunnel credentials secret that the operator writes for an exit node.
#[derive(Debug, Clone)]
pub struct AuthSecret {
    pub name: String,
    pub namespace: String,
    /// The value under the `auth` key (`AUTH_SECRET_KEY`): `<user>:<password>`.
    pub auth: String,
}

/// The name of the secret of an exit node: the one its spec names, else `<name>-auth`.
pub open spec fn secret_name_of(n: ExitNode) -> Seq<char> {
    match n.spec.auth {
        Some(a) => a@,
        None => n.name@ + "-auth"@,
    }
}

/// The address that clients dial: the observed IP, else the external host, else the host.
pub open spec fn effective_host(n: ExitNode) -> Seq<char> {
    match n.status {
        Some(s) => s.ip@,
        None => match n.spec.external_host {
            Some(e) => e@,
            None => n.spec.host@,
        },
    }
}

/// Whether an exit node carries the provisioner annotation.
pub open spec fn is_managed(n: ExitNode) -> bool {
    has_key(n.annotations@, EXIT_NODE_PROVISIONER_LABEL@)
}

/// Namespace and name that a provisioner reference denotes: `ns/name`, or a
/// bare name in `default_ns`.
pub open spec fn provisioner_ref(default_ns: Seq<char>, query: Seq<char>) -> (Seq<char>, Seq<char>) {
    match split_once_spec(query, '/') {
        Some(p) => p,
        None => (default_ns, query),
    }
}

/// Splits a provisioner reference into namespace and name; a bare name lies in `default_namespace`.
pub fn parse_provisioner_label_value(default_namespace: &str, query: &str) -> (r: (String, String))
    ensures
        (r.0@, r.1@) == provisioner_ref(default_namespace@, query@),
{
    match split_once(query, '/') {
        Some(p) => p,
        None => (String::from_str(default_namespace), String::from_str(query)),
    }
}

/// A reference `ns/name` denotes `name` in `ns`; a bare `name` denotes `name`
/// in the default namespace.
pub proof fn lemma_provisioner_ref(default_ns: Seq<char>, ns: Seq<char>, name: Seq<char>)
    requires
        !ns.contains('/'),
        !name.contains('/'),
    ensures
        provisioner_ref(default_ns, ns + "/"@ + name) == (ns, name),
        provisioner_ref(default_ns, name) == (default_ns, name),
{
    reveal_strlit("/");
    let q = ns + "/"@ + name;
    assert(q[ns.len() as int] == '/');
    assert forall|j: int| 0 <= j < ns.len() implies q[j] != '/' by {
        assert(q[j] == ns[j]);
        if q[j] == '/' {
            assert(ns.contains('/'));
        }
    }
    lemma_first_index_of(q, '/', ns.len() as int);
    assert(q.subrange(0, ns.len() as int) =~= ns);
    assert(q.subrange(ns.len() as int + 1, q.len() as int) =~= name);
    assert forall|j: int| 0 <= j < name.len() implies name[j] != '/' by {
        if name[j] == '/' {
            assert(name.contains('/'));
        }
    }
}

impl ExitNode {
    /// The name of the secret that holds the tunnel credentials.
    pub fn get_secret_name(&self) -> (r: String)
        ensures
            r@ == secret_name_of(*self),
    {
        match &self.spec.auth {
            Some(auth) => auth.clone(),
            None => {
                let mut s = self.name.clone();
                s.append("-auth");
                s
            },
        }
    }

    /// The address that clients dial.
    pub fn get_host(&self) -> (r: String)
        ensures
            r@ == effective_host(*self),
    {
        match &self.status {
            Some(status) => status.ip.clone(),
            None => match &self.spec.external_host {
                Some(e) => e.clone(),
                None => self.spec.host.clone(),
            },
        }
    }

    /// The provisioner reference of a managed exit node.
    pub fn provisioner(&self) -> (r: Option<String>)
        ensures
            r == lookup(self.annotations@, EXIT_NODE_PROVISIONER_LABEL@),
    {
        get_value(&self.annotations, EXIT_NODE_PROVISIONER_LABEL)
    }

    /// The tunnel credentials secret for `password`, named as `get_secret_name`
    /// says, in the exit node's namespace.
    pub fn generate_secret(&self, password: &str) -> (r: AuthSecret)
        ensures
            r.name@ == secret_name_of(*self),
            r.namespace == self.namespace,
            r.auth@ == crate::cloud::pwgen::DEFAULT_USERNAME@ + ":"@ + password@,
    {
        let mut auth = String::from_str(crate::cloud::pwgen::DEFAULT_USERNAME);
        auth.append(":");
        auth.append(password);
        AuthSecret { name: self.get_secret_name(), namespace: self.namespace.clone(), auth }
    }
}

/// Whether the exit node is managed by a provisioner.
pub fn check_exit_node_managed(node: &ExitNode) -> (r: bool)
    ensures
        r == is_managed(*node),
{
    contains_key(&node.annotations, EXIT_NODE_PROVISIONER_LABEL)
}

impl ExitNodeStatus {
    /// A status with no service binding.
    pub fn new(provider: String, name: String, ip: String, id: Option<String>) -> (r: Self)
        ensures
            r.provider == provider,
            r.name == name,
            r.ip == ip,
            r.id == id,
            r.service_binding is None,
    {
        ExitNodeStatus { provider, name, ip, id, service_binding: None }
    }
}

/// One provisioner, on one cloud.
#[derive(Debug, Clone)]
pub enum ExitNodeProvisionerSpec {
    DigitalOcean(DigitalOceanProvisioner),
    Linode(LinodeProvisioner),
    AWS(AWSProvisioner),
}

/// The credentials secret that a provisioner spec names.
pub open spec fn provisioner_secret_name(s: ExitNodeProvisionerSpec) -> String {
    match s {
        ExitNodeProvisionerSpec::DigitalOcean(a) => a.auth,
        ExitNodeProvisionerSpec::Linode(a) => a.auth,
        ExitNodeProvisionerSpec::AWS(a) => a.auth,
    }
}

impl ExitNodeProvisionerSpec {
    /// The cloud this provisioner works on.
    pub fn provider(&self) -> (r: CloudProvider)
        ensures
            self is DigitalOcean ==> r is DigitalOcean,
            self is Linode ==> r is Linode,
            self is AWS ==> r is AWS,
    {
        match self {
            ExitNodeProvisionerSpec::DigitalOcean(_) => CloudProvider::DigitalOcean,
            ExitNodeProvisionerSpec::Linode(_) => CloudProvider::Linode,
            ExitNodeProvisionerSpec::AWS(_) => CloudProvider::AWS,
        }
    }
}

/// A provisioner resource.
#[derive(Debug, Clone)]
pub struct ExitNodeProvisioner {
    pub name: String,
    pub namespace: String,
    pub spec: ExitNodeProvisionerSpec,
}

impl ExitNodeProvisioner {
    /// Name and namespace of the credentials secret: the provisioner's own namespace.
    pub fn find_secret(&self) -> (r: (String, String))
        ensures
            r.0 == provisioner_secret_name(self.spec),
            r.1 == self.namespace,
    {
        let name = match &self.spec {
            ExitNodeProvisionerSpec::DigitalOcean(a) => a.auth.clone(),
            ExitNodeProvisionerSpec::Linode(a) => a.auth.clone(),
            ExitNodeProvisionerSpec::AWS(a) => a.auth.clone(),
        };
        (name, self.namespace.clone())
    }
}

} // verus!
