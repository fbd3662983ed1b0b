//! The decisions of the two reconcilers: which services to serve, which exit
//! node a service gets, what to publish, and what to do with an exit node.
use vstd::prelude::*;
use crate::address::{address_kind_of, classify_address};
use crate::cloud::pwgen::DEFAULT_USERNAME;
use crate::cloud::secret_text;
use crate::deployment::{
    client_args, create_owned_deployment, is_deployment_for, lemma_deployment_for_unique,
    same_deployment, DeploymentPlan,
};
use crate::error::ReconcileError;
use crate::kv::{contains_key, get_value, has_key, lookup};
use crate::ops::{
    effective_host, is_managed, parse_provisioner_label_value, provisioner_ref, ExitNode,
    ExitNodeProvisioner, ExitNodeSpec, ExitNodeStatus, Secret, EXIT_NODE_NAME_LABEL,
    EXIT_NODE_PROVISIONER_LABEL, UNMANAGED_PROVISIONER, AUTH_SECRET_KEY,
};
use crate::search::{first_index, last_index, lemma_first_index, lemma_last_index};
use crate::service::{get_svc_lb_ip, svc_lb_ip, AddressKind, LoadBalancerIngress, Service};
use crate::text::{opt_view, same_opt_text, strip_prefix, strip_prefix_spec};

verus! {

/// Load balancer class that this operator serves.
pub const OPERATOR_CLASS: &'static str = "chisel-operator.io/chisel-operator-class";
/// Field manager of every write.
pub const OPERATOR_MANAGER: &'static str = "chisel-operator";
/// Finalizer of managed exit nodes.
pub const EXIT_NODE_FINALIZER: &'static str = "exitnode.chisel-operator.io/finalizer";
/// Finalizer of served services.
pub const SVCS_FINALIZER: &'static str = "service.chisel-operator.io/finalizer";
/// How long a reservation keeps other services off an exit node, in seconds.
pub const BACKOFF_TIME_SECS: u64 = 5;

/// The last exit node handed out by the selection lock, and how long ago.
#[derive(Debug, Clone)]
pub struct Reservation {
    pub host: String,
    pub age_secs: u64,
}

/// Whether a service is one this operator serves: a LoadBalancer whose class
/// is this operator's, or unset where no class is required.
pub open spec fn eligible(svc: Service, require_class: bool) -> bool {
    &&& svc.service_type matches Some(t) && t@ == "LoadBalancer"@
    &&& match svc.load_balancer_class {
        Some(c) => c@ == OPERATOR_CLASS@,
        None => !require_class,
    }
}

/// Whether a service asks for a provisioned exit node.
pub open spec fn is_service_managed(svc: Service) -> bool {
    has_key(svc.annotations@, EXIT_NODE_PROVISIONER_LABEL@)
}

/// Whether `svc` publishes `host` as its load balancer IP.
pub open spec fn publishes(svc: Service, host: Seq<char>) -> bool {
    svc_lb_ip(svc) matches Some(ip) && ip@ == host
}

/// Whether some service publishes `host`.
pub open spec fn host_published(services: Seq<Service>, host: Seq<char>) -> bool {
    exists|j: int| 0 <= j < services.len() && #[trigger] publishes(services[j], host)
}

/// Whether no service publishes the exit node's address.
pub open spec fn is_free(n: ExitNode, services: Seq<Service>) -> bool {
    !host_published(services, effective_host(n))
}

/// Whether `host` was handed out less than the backoff period ago.
pub open spec fn recently_reserved(res: Option<Reservation>, host: Seq<char>) -> bool {
    res matches Some(r) && r.age_secs < BACKOFF_TIME_SECS && r.host@ == host
}

/// Whether an exit node can be given to a service that names none: it is free,
/// it is not waiting for its machine, and it was not just handed out.
pub open spec fn selectable(services: Seq<Service>, res: Option<Reservation>) -> spec_fn(ExitNode) -> bool {
    |n: ExitNode|
        is_free(n, services) && (!is_managed(n) || n.status is Some) && !recently_reserved(
            res,
            effective_host(n),
        )
}

/// Whether an exit node is realised at `ip`.
pub open spec fn realised_at(ip: Seq<char>) -> spec_fn(ExitNode) -> bool {
    |n: ExitNode| n.status is Some && effective_host(n) == ip
}

/// Whether an exit node is `name` in `namespace`.
pub open spec fn named(namespace: Seq<char>, name: Seq<char>) -> spec_fn(ExitNode) -> bool {
    |n: ExitNode| n.namespace@ == namespace && n.name@ == name
}

/// The exit node a service is bound to: the last realised one at its published IP.
pub open spec fn bound_index(nodes: Seq<ExitNode>, svc: Service) -> Option<int> {
    match svc_lb_ip(svc) {
        Some(ip) => last_index(nodes, realised_at(ip@)),
        None => None,
    }
}

/// The exit node that a reference `ns/name` or `name` (in `namespace`) denotes.
pub open spec fn referenced_index(nodes: Seq<ExitNode>, query: Seq<char>, namespace: Seq<char>) -> Option<int> {
    let r = provisioner_ref(namespace, query);
    first_index(nodes, named(r.0, r.1))
}

/// Where a service's exit node comes from.
#[derive(Debug, Clone, Copy, PartialEq, Eq, Structural)]
pub enum ExitNodeChoice {
    /// The exit node at this position of the list.
    Existing(usize),
    /// A provisioned exit node of its own.
    Provision,
}

/// The exit node a service gets: the one bound to it; else the one its label
/// names; else a provisioned one when it names a provisioner; else the first
/// selectable one.
pub open spec fn choice(
    svc: Service,
    services: Seq<Service>,
    nodes: Seq<ExitNode>,
    res: Option<Reservation>,
) -> Result<ExitNodeChoice, ReconcileError> {
    match bound_index(nodes, svc) {
        Some(i) => Ok(ExitNodeChoice::Existing(i as usize)),
        None => match lookup(svc.labels@, EXIT_NODE_NAME_LABEL@) {
            Some(q) => match referenced_index(nodes, q@, svc.namespace@) {
                Some(i) => Ok(ExitNodeChoice::Existing(i as usize)),
                None => Err(ReconcileError::NoAvailableExitNodes),
            },
            None => if is_service_managed(svc) {
                Ok(ExitNodeChoice::Provision)
            } else {
                match first_index(nodes, selectable(services, res)) {
                    Some(i) => Ok(ExitNodeChoice::Existing(i as usize)),
                    None => Err(ReconcileError::NoAvailableExitNodes),
                }
            },
        },
    }
}

/// Whether this operator serves `svc`.
pub fn service_is_eligible(svc: &Service, require_class: bool) -> (r: bool)
    ensures
        r == eligible(*svc, require_class),
{
    let is_lb = match &svc.service_type {
        Some(t) => *t == String::from_str("LoadBalancer"),
        None => false,
    };
    let class_ok = match &svc.load_balancer_class {
        Some(c) => *c == String::from_str(OPERATOR_CLASS),
        None => !require_class,
    };
    is_lb && class_ok
}

/// Whether the service asks for a provisioned exit node.
pub fn check_service_managed(service: &Service) -> (r: bool)
    ensures
        r == is_service_managed(*service),
{
    contains_key(&service.annotations, EXIT_NODE_PROVISIONER_LABEL)
}

fn host_is_published(services: &Vec<Service>, host: &String) -> (r: bool)
    ensures
        r == host_published(services@, host@),
{
    let mut i: usize = 0;
    while i < services.len()
        invariant
            i <= services@.len(),
            forall|j: int| 0 <= j < i ==> !#[trigger] publishes(services@[j], host@),
        decreases services@.len() - i,
    {
        match get_svc_lb_ip(&services[i]) {
            Some(ip) => {
                if ip == *host {
                    assert(publishes(services@[i as int], host@));
                    return true;
                }
            },
            None => {},
        }
        i = i + 1;
    }
    false
}

/// The positions of the exit nodes whose address no service publishes, in order.
pub fn find_free_exit_nodes(services: &Vec<Service>, nodes: &Vec<ExitNode>) -> (r: Vec<usize>)
    ensures
        forall|k: int| 0 <= k < r@.len() ==> #[trigger] r@[k] < nodes@.len() && is_free(nodes@[r@[k] as int], services@),
        forall|k: int, l: int| 0 <= k < l < r@.len() ==> r@[k] < r@[l],
        forall|i: int| 0 <= i < nodes@.len() && is_free(#[trigger] nodes@[i], services@) ==> r@.contains(i as usize),
{
    let mut out: Vec<usize> = Vec::new();
    let mut i: usize = 0;
    while i < nodes.len()
        invariant
            i <= nodes@.len(),
            forall|k: int| 0 <= k < out@.len() ==> #[trigger] out@[k] < i && is_free(nodes@[out@[k] as int], services@),
            forall|k: int, l: int| 0 <= k < l < out@.len() ==> out@[k] < out@[l],
            forall|j: int| 0 <= j < i && is_free(#[trigger] nodes@[j], services@) ==> out@.contains(j as usize),
        decreases nodes@.len() - i,
    {
        let host = nodes[i].get_host();
        let ghost old_out = out@;
        if !host_is_published(services, &host) {
            out.push(i);
            assert(out@[out@.len() - 1] == i);
        }
        proof {
            assert forall|j: int| 0 <= j < i + 1 && is_free(#[trigger] nodes@[j], services@) implies out@.contains(j as usize) by {
                if j < i {
                    assert(old_out.contains(j as usize));
                    let k = choose|k: int| 0 <= k < old_out.len() && old_out[k] == j as usize;
                    assert(out@[k] == j as usize);
                } else {
                    assert(out@[out@.len() - 1] == i);
                }
            }
        }
        i = i + 1;
    }
    out
}

/// The realised exit nodes, in order, each with the address clients dial.
pub fn get_exit_nodes_by_ip(nodes: &Vec<ExitNode>) -> (r: Vec<(String, usize)>)
    ensures
        forall|k: int|
            0 <= k < r@.len() ==> #[trigger] r@[k].1 < nodes@.len() && nodes@[r@[k].1 as int].status is Some
                && r@[k].0@ == effective_host(nodes@[r@[k].1 as int]),
        forall|k: int, l: int| 0 <= k < l < r@.len() ==> r@[k].1 < r@[l].1,
        forall|i: int|
            0 <= i < nodes@.len() && (#[trigger] nodes@[i]).status is Some ==> exists|k: int|
                0 <= k < r@.len() && r@[k].1 == i,
{
    let mut out: Vec<(String, usize)> = Vec::new();
    let mut i: usize = 0;
    while i < nodes.len()
        invariant
            i <= nodes@.len(),
            forall|k: int|
                0 <= k < out@.len() ==> #[trigger] out@[k].1 < i && nodes@[out@[k].1 as int].status is Some
                    && out@[k].0@ == effective_host(nodes@[out@[k].1 as int]),
            forall|k: int, l: int| 0 <= k < l < out@.len() ==> out@[k].1 < out@[l].1,
            forall|j: int|
                0 <= j < i && (#[trigger] nodes@[j]).status is Some ==> exists|k: int|
                    0 <= k < out@.len() && out@[k].1 == j,
        decreases nodes@.len() - i,
    {
        let ghost old_out = out@;
        if nodes[i].status.is_some() {
            out.push((nodes[i].get_host(), i));
        }
        proof {
            assert forall|j: int| 0 <= j < i + 1 && (#[trigger] nodes@[j]).status is Some implies exists|k: int|
                0 <= k < out@.len() && out@[k].1 == j by {
                if j < i {
                    let k = choose|k: int| 0 <= k < old_out.len() && old_out[k].1 == j;
                    assert(out@[k] == old_out[k]);
                } else {
                    assert(out@[out@.len() - 1].1 == i);
                }
            }
        }
        i = i + 1;
    }
    out
}

/// The exit node realised at the IP that the service publishes, if any.
pub fn get_svc_bound_exit_node(nodes: &Vec<ExitNode>, svc: &Service) -> (r: Option<usize>)
    ensures
        r matches Some(i) ==> i < nodes@.len(),
        match bound_index(nodes@, *svc) {
            Some(i) => r == Some(i as usize),
            None => r is None,
        },
{
    let ip = match get_svc_lb_ip(svc) {
        Some(ip) => ip,
        None => return None,
    };
    let ghost p = realised_at(ip@);
    let mut found: Option<usize> = None;
    let mut i: usize = 0;
    while i < nodes.len()
        invariant
            i <= nodes@.len(),
            p == realised_at(ip@),
            found matches Some(k) ==> k < i && p(nodes@[k as int]) && forall|j: int| k < j < i ==> !p(#[trigger] nodes@[j]),
            found is None ==> forall|j: int| 0 <= j < i ==> !p(#[trigger] nodes@[j]),
        decreases nodes@.len() - i,
    {
        if nodes[i].status.is_some() && nodes[i].get_host() == ip {
            found = Some(i);
        }
        i = i + 1;
    }
    proof {
        match found {
            Some(k) => lemma_last_index(nodes@, p, k as int),
            None => {
                assert(!(exists|j: int| 0 <= j < nodes@.len() && #[trigger] p(nodes@[j])));
            },
        }
    }
    found
}

/// The exit node that `query` (`ns/name`, or a name in `og_namespace`) denotes.
pub fn find_exit_node_from_label(nodes: &Vec<ExitNode>, query: &str, og_namespace: &str) -> (r: Option<usize>)
    ensures
        r matches Some(i) ==> i < nodes@.len(),
        match referenced_index(nodes@, query@, og_namespace@) {
            Some(i) => r == Some(i as usize),
            None => r is None,
        },
{
    let (namespace, name) = parse_provisioner_label_value(og_namespace, query);
    let ghost p = named(namespace@, name@);
    let mut i: usize = 0;
    while i < nodes.len()
        invariant
            i <= nodes@.len(),
            p == named(namespace@, name@),
            (namespace@, name@) == provisioner_ref(og_namespace@, query@),
            forall|j: int| 0 <= j < i ==> !p(#[trigger] nodes@[j]),
        decreases nodes@.len() - i,
    {
        if nodes[i].namespace == namespace && nodes[i].name == name {
            proof { lemma_first_index(nodes@, p, i as int); }
            return Some(i);
        }
        i = i + 1;
    }
    assert(!(exists|j: int| 0 <= j < nodes@.len() && #[trigger] p(nodes@[j])));
    None
}

/// The provisioner that `query` (`ns/name`, or a name in `default_namespace`) denotes.
pub fn find_exit_node_provisioner_from_label(
    provisioners: &Vec<ExitNodeProvisioner>,
    default_namespace: &str,
    query: &str,
) -> (r: Option<usize>)
    ensures
        r matches Some(i) ==> i < provisioners@.len() && (provisioners@[i as int].namespace@, provisioners@[i as int].name@)
            == provisioner_ref(default_namespace@, query@),
        r is None ==> forall|j: int| 0 <= j < provisioners@.len() ==> (#[trigger] provisioners@[j].namespace@, provisioners@[j].name@)
            != provisioner_ref(default_namespace@, query@),
{
    let (namespace, name) = parse_provisioner_label_value(default_namespace, query);
    let mut i: usize = 0;
    while i < provisioners.len()
        invariant
            i <= provisioners@.len(),
            (namespace@, name@) == provisioner_ref(default_namespace@, query@),
            forall|j: int| 0 <= j < i ==> (#[trigger] provisioners@[j].namespace@, provisioners@[j].name@) != (namespace@, name@),
        decreases provisioners@.len() - i,
    {
        if provisioners[i].namespace == namespace && provisioners[i].name == name {
            return Some(i);
        }
        i = i + 1;
    }
    None
}

/// A reference `ns/name` denotes the provisioner `name` in `ns`, whatever the
/// default namespace; a bare `name` denotes `name` in the default namespace.
/// With the contract of `find_exit_node_provisioner_from_label`, the lookup
/// finds exactly such a provisioner, or reports that none exists.
pub proof fn lemma_provisioner_reference_lookup(
    p: ExitNodeProvisioner,
    default_ns: Seq<char>,
    ns: Seq<char>,
    name: Seq<char>,
)
    requires
        !ns.contains('/'),
        !name.contains('/'),
    ensures
        (p.namespace@, p.name@) == provisioner_ref(default_ns, ns + "/"@ + name) <==> (p.namespace@ == ns
            && p.name@ == name),
        (p.namespace@, p.name@) == provisioner_ref(default_ns, name) <==> (p.namespace@ == default_ns
            && p.name@ == name),
{
    crate::ops::lemma_provisioner_ref(default_ns, ns, name);
}

fn first_selectable(services: &Vec<Service>, nodes: &Vec<ExitNode>, reservation: &Option<Reservation>) -> (r: Option<usize>)
    ensures
        r matches Some(i) ==> i < nodes@.len(),
        match first_index(nodes@, selectable(services@, *reservation)) {
            Some(i) => r == Some(i as usize),
            None => r is None,
        },
{
    let ghost p = selectable(services@, *reservation);
    let mut i: usize = 0;
    while i < nodes.len()
        invariant
            i <= nodes@.len(),
            p == selectable(services@, *reservation),
            forall|j: int| 0 <= j < i ==> !p(#[trigger] nodes@[j]),
        decreases nodes@.len() - i,
    {
        let node = &nodes[i];
        let host = node.get_host();
        let waiting = crate::ops::check_exit_node_managed(node) && node.status.is_none();
        let reserved = match reservation {
            Some(res) => res.age_secs < BACKOFF_TIME_SECS && res.host == host,
            None => false,
        };
        if !host_is_published(services, &host) && !waiting && !reserved {
            proof { lemma_first_index(nodes@, p, i as int); }
            return Some(i);
        }
        i = i + 1;
    }
    assert(!(exists|j: int| 0 <= j < nodes@.len() && #[trigger] p(nodes@[j])));
    None
}

/// Chooses the exit node of a service among `nodes`, given the published
/// services and the last reservation of the selection lock.
pub fn select_exit_node_local(
    service: &Service,
    services: &Vec<Service>,
    nodes: &Vec<ExitNode>,
    reservation: &Option<Reservation>,
) -> (r: Result<ExitNodeChoice, ReconcileError>)
    ensures
        r == choice(*service, services@, nodes@, *reservation),
        r matches Ok(ExitNodeChoice::Existing(i)) ==> i < nodes@.len(),
{
    match get_svc_bound_exit_node(nodes, service) {
        Some(i) => return Ok(ExitNodeChoice::Existing(i)),
        None => {},
    }
    match get_value(&service.labels, EXIT_NODE_NAME_LABEL) {
        Some(q) => {
            return match find_exit_node_from_label(nodes, q.as_str(), service.namespace.as_str()) {
                Some(i) => Ok(ExitNodeChoice::Existing(i)),
                None => Err(ReconcileError::NoAvailableExitNodes),
            };
        },
        None => {},
    }
    if check_service_managed(service) {
        return Ok(ExitNodeChoice::Provision);
    }
    match first_selectable(services, nodes, reservation) {
        Some(i) => Ok(ExitNodeChoice::Existing(i)),
        None => Err(ReconcileError::NoAvailableExitNodes),
    }
}

/// The host that the selection lock holds after a choice: the chosen exit
/// node's address; none when the service gets a provisioned exit node.
pub fn reserved_host(choice: ExitNodeChoice, nodes: &Vec<ExitNode>) -> (r: Option<String>)
    requires
        choice matches ExitNodeChoice::Existing(i) ==> i < nodes@.len(),
    ensures
        match choice {
            ExitNodeChoice::Existing(i) => r matches Some(h) && h@ == effective_host(nodes@[i as int]),
            ExitNodeChoice::Provision => r is None,
        },
{
    match choice {
        ExitNodeChoice::Existing(i) => Some(nodes[i].get_host()),
        ExitNodeChoice::Provision => None,
    }
}

/// The provisioner that a reference denotes, or `CloudProvisionerNotFound`.
pub fn provisioner_for_reference(
    provisioners: &Vec<ExitNodeProvisioner>,
    default_namespace: &str,
    query: &str,
) -> (r: Result<usize, ReconcileError>)
    ensures
        r matches Ok(i) ==> i < provisioners@.len() && (provisioners@[i as int].namespace@, provisioners@[
            i as int
        ].name@) == provisioner_ref(default_namespace@, query@),
        r is Err <==> forall|j: int|
            0 <= j < provisioners@.len() ==> (#[trigger] provisioners@[j].namespace@, provisioners@[j].name@)
                != provisioner_ref(default_namespace@, query@),
        r is Err ==> r == Err::<usize, ReconcileError>(ReconcileError::CloudProvisionerNotFound),
{
    match find_exit_node_provisioner_from_label(provisioners, default_namespace, query) {
        Some(i) => Ok(i),
        None => Err(ReconcileError::CloudProvisionerNotFound),
    }
}

/// Default name of a service's provisioned exit node.
pub open spec fn managed_node_name(svc: Service) -> Seq<char> {
    match lookup(svc.annotations@, EXIT_NODE_NAME_LABEL@) {
        Some(n) => n@,
        None => "service-"@ + svc.name@,
    }
}

/// A provisioner reference written in full, `ns/name`; a bare name is read in
/// `default_ns`.
pub open spec fn qualified_ref(default_ns: Seq<char>, p: Seq<char>) -> Seq<char> {
    provisioner_ref(default_ns, p).0 + "/"@ + provisioner_ref(default_ns, p).1
}

/// Whether `n` is the exit node to provision for `svc` with the provisioner
/// reference `p`: named by its `exit-node-name` annotation or `service-<name>`,
/// in its namespace, with the provisioner reference written `ns/name` (a bare
/// name taken in the service's namespace),
/// an empty host, the default port, the default route, and credentials in
/// `<name>-auth`.
pub open spec fn is_exit_node_template(n: ExitNode, svc: Service, p: Seq<char>) -> bool {
    &&& n.name@ == managed_node_name(svc)
    &&& n.namespace == svc.namespace
    &&& n.annotations@.len() == 1
    &&& n.annotations@[0].0@ == EXIT_NODE_PROVISIONER_LABEL@
    &&& n.annotations@[0].1@ == qualified_ref(svc.namespace@, p)
    &&& n.spec.host@ == Seq::<char>::empty()
    &&& n.spec.external_host is None
    &&& n.spec.port == crate::cloud::CHISEL_PORT
    &&& n.spec.fingerprint is None
    &&& n.spec.auth matches Some(a) && a@ == managed_node_name(svc) + "-auth"@
    &&& n.spec.chisel_image is None
    &&& n.spec.default_route
    &&& n.status is None
}

/// The exit node to provision for a service that names a provisioner.
pub fn exit_node_for_service(service: &Service) -> (r: Result<ExitNode, ReconcileError>)
    ensures
        match lookup(service.annotations@, EXIT_NODE_PROVISIONER_LABEL@) {
            None => r == Err::<ExitNode, ReconcileError>(ReconcileError::CloudProvisionerNotFound),
            Some(p) => r matches Ok(n) && is_exit_node_template(n, *service, p@),
        },
{
    let provisioner = match get_value(&service.annotations, EXIT_NODE_PROVISIONER_LABEL) {
        Some(p) => p,
        None => return Err(ReconcileError::CloudProvisionerNotFound),
    };
    let name = match get_value(&service.annotations, EXIT_NODE_NAME_LABEL) {
        Some(n) => n,
        None => {
            let mut n = String::from_str("service-");
            n.append(service.name.as_str());
            n
        },
    };
    let (ns, provisioner_name) = parse_provisioner_label_value(service.namespace.as_str(), provisioner.as_str());
    let mut qualified = ns;
    qualified.append("/");
    qualified.append(provisioner_name.as_str());
    let mut annotations: Vec<(String, String)> = Vec::new();
    annotations.push((String::from_str(EXIT_NODE_PROVISIONER_LABEL), qualified));
    let mut auth = name.clone();
    auth.append("-auth");
    Ok(ExitNode {
        name,
        namespace: service.namespace.clone(),
        annotations,
        spec: ExitNodeSpec {
            host: String::new(),
            external_host: None,
            port: crate::cloud::CHISEL_PORT,
            fingerprint: None,
            auth: Some(auth),
            chisel_image: None,
            default_route: true,
        },
        status: None,
    })
}

/// The published address, as (IP, hostname).
pub open spec fn ingress_view(i: LoadBalancerIngress) -> (Option<Seq<char>>, Option<Seq<char>>) {
    (opt_view(i.ip), opt_view(i.hostname))
}

/// How an address is published: an IP literal as the IP, a name as the hostname.
pub open spec fn ingress_for(host: Seq<char>) -> (Option<Seq<char>>, Option<Seq<char>>) {
    if address_kind_of(host) is Hostname {
        (None, Some(host))
    } else {
        (Some(host), None)
    }
}

/// Whether a service's published address differs from its exit node's.
pub open spec fn status_patch_needed(svc: Service, node: ExitNode) -> bool {
    match svc.ingress {
        Some(i) => ingress_view(i) != ingress_for(effective_host(node)),
        None => true,
    }
}

/// The load balancer address to publish for a service bound to `node`: its
/// address as the IP when it is an IP literal, else as the hostname. Exactly
/// one of the two is set.
pub fn lb_ingress_for(node: &ExitNode) -> (r: LoadBalancerIngress)
    ensures
        ingress_view(r) == ingress_for(effective_host(*node)),
        r.ip is Some != r.hostname is Some,
{
    let host = node.get_host();
    if classify_address(host.as_str()) == AddressKind::Hostname {
        LoadBalancerIngress { ip: None, hostname: Some(host) }
    } else {
        LoadBalancerIngress { ip: Some(host), hostname: None }
    }
}

/// The status write a service needs: none when it already publishes its exit
/// node's address.
pub fn service_status_patch(svc: &Service, node: &ExitNode) -> (r: Option<LoadBalancerIngress>)
    ensures
        r is Some <==> status_patch_needed(*svc, *node),
        r matches Some(i) ==> ingress_view(i) == ingress_for(effective_host(*node)) && i.ip is Some
            != i.hostname is Some,
{
    let desired = lb_ingress_for(node);
    match &svc.ingress {
        Some(current) => {
            if same_opt_text(&current.ip, &desired.ip) && same_opt_text(&current.hostname, &desired.hostname) {
                None
            } else {
                Some(desired)
            }
        },
        None => Some(desired),
    }
}

/// The writes that bring a service and its tunnel client up to date.
#[derive(Debug, Clone)]
pub struct ServiceWrites {
    /// The load balancer address to publish, when the published one differs.
    pub status: Option<LoadBalancerIngress>,
    /// The tunnel client deployment to apply, when the existing one differs.
    pub deployment: Option<DeploymentPlan>,
}

/// Whether the existing tunnel client deployment, if any, is not the one for
/// `svc` through `node`.
pub open spec fn deployment_write_needed(svc: Service, node: ExitNode, existing: Option<DeploymentPlan>) -> bool {
    !(existing matches Some(d) && is_deployment_for(d, svc, node))
}

/// The writes that a service bound to `node` needs, given the tunnel client
/// deployment that exists for it: none for what is already up to date.
pub fn plan_service_writes(svc: &Service, node: &ExitNode, existing: &Option<DeploymentPlan>) -> (r: Result<
    ServiceWrites,
    ReconcileError,
>)
    ensures
        match client_args(*svc, *node) {
            Err(e) => r == Err::<ServiceWrites, ReconcileError>(e),
            Ok(_) => r matches Ok(w) && {
                &&& w.status is Some <==> status_patch_needed(*svc, *node)
                &&& w.status matches Some(i) ==> ingress_view(i) == ingress_for(effective_host(*node))
                &&& w.deployment is Some <==> deployment_write_needed(*svc, *node, *existing)
                &&& w.deployment matches Some(d) ==> is_deployment_for(d, *svc, *node)
            },
        },
{
    let desired = create_owned_deployment(svc, node)?;
    let status = service_status_patch(svc, node);
    let deployment = match existing {
        Some(d) => {
            proof { lemma_deployment_for_unique(desired, *d, *svc, *node); }
            if same_deployment(d, &desired) {
                None
            } else {
                Some(desired)
            }
        },
        None => Some(desired),
    };
    Ok(ServiceWrites { status, deployment })
}

/// Reconciling a service again, once the address of its exit node is published
/// and its tunnel client deployment applied, asks for no write.
pub proof fn lemma_reconcile_settles(
    svc: Service,
    node: ExitNode,
    published: LoadBalancerIngress,
    applied: DeploymentPlan,
)
    requires
        ingress_view(published) == ingress_for(effective_host(node)),
        is_deployment_for(applied, svc, node),
    ensures
        !status_patch_needed(Service { ingress: Some(published), ..svc }, node),
        !deployment_write_needed(Service { ingress: Some(published), ..svc }, node, Some(applied)),
{
    let settled = Service { ingress: Some(published), ..svc };
    assert(client_args(settled, node) == client_args(svc, node));
}

/// One step of reconciling an exit node, performed in order.
#[derive(Debug, Clone)]
pub enum NodeStep {
    /// Write this status on an exit node that no provisioner manages.
    WriteStatus(ExitNodeStatus),
    /// Destroy the machine, with the provisioner that this reference denotes.
    DeleteMachine(String),
    /// Remove the exit node's status.
    ClearStatus,
    /// Create a machine with the provisioner that this reference denotes, and write its status.
    CreateMachine(String),
    /// Refresh the machine's status with the provisioner that this reference denotes.
    UpdateMachine(String),
}

/// The steps for an exit node that no provisioner manages: write
/// `{unmanaged, name, host}` when it has no status, else nothing.
pub open spec fn unmanaged_plan(node: ExitNode, steps: Seq<NodeStep>) -> bool {
    match node.status {
        None => {
            &&& steps.len() == 1
            &&& steps[0] matches NodeStep::WriteStatus(st)
            &&& st.provider@ == UNMANAGED_PROVISIONER@
            &&& st.name == node.name
            &&& st.ip == node.spec.host
            &&& st.id is None
            &&& st.service_binding is None
        },
        Some(_) => steps.len() == 0,
    }
}

/// The steps for a managed exit node whose provisioner reference is `p`: create
/// a machine when it has no status; refresh it when the status comes from `p`;
/// else destroy the old machine, clear the status, and create a new one.
pub open spec fn managed_plan(node: ExitNode, p: Seq<char>, steps: Seq<NodeStep>) -> bool {
    match node.status {
        None => {
            &&& steps.len() == 1
            &&& steps[0] matches NodeStep::CreateMachine(q)
            &&& q@ == p
        },
        Some(s) => if s.provider@ == p {
            &&& steps.len() == 1
            &&& steps[0] matches NodeStep::UpdateMachine(q)
            &&& q@ == p
        } else {
            &&& steps.len() == 3
            &&& steps[0] matches NodeStep::DeleteMachine(old)
            &&& old@ == s.provider@
            &&& steps[1] is ClearStatus
            &&& steps[2] matches NodeStep::CreateMachine(q)
            &&& q@ == p
        },
    }
}

/// The steps that reconcile `node`; a managed exit node without a credentials
/// secret is an error.
pub fn plan_exit_node(node: &ExitNode) -> (r: Result<Vec<NodeStep>, ReconcileError>)
    ensures
        !is_managed(*node) ==> (r matches Ok(steps) && unmanaged_plan(*node, steps@)),
        is_managed(*node) && node.spec.auth is None ==> r == Err::<Vec<NodeStep>, ReconcileError>(
            ReconcileError::ManagedExitNodeNoPasswordSet,
        ),
        is_managed(*node) && node.spec.auth is Some ==> (r matches Ok(steps) && managed_plan(
            *node,
            lookup(node.annotations@, EXIT_NODE_PROVISIONER_LABEL@)->0@,
            steps@,
        )),
{
    let mut steps: Vec<NodeStep> = Vec::new();
    let provisioner = match node.provisioner() {
        Some(p) => p,
        None => {
            if node.status.is_none() {
                steps.push(
                    NodeStep::WriteStatus(
                        ExitNodeStatus::new(
                            String::from_str(UNMANAGED_PROVISIONER),
                            node.name.clone(),
                            node.spec.host.clone(),
                            None,
                        ),
                    ),
                );
            }
            return Ok(steps);
        },
    };
    if node.spec.auth.is_none() {
        return Err(ReconcileError::ManagedExitNodeNoPasswordSet);
    }
    match &node.status {
        None => steps.push(NodeStep::CreateMachine(provisioner)),
        Some(s) => {
            if s.provider == provisioner {
                steps.push(NodeStep::UpdateMachine(provisioner));
            } else {
                steps.push(NodeStep::DeleteMachine(s.provider.clone()));
                steps.push(NodeStep::ClearStatus);
                steps.push(NodeStep::CreateMachine(provisioner));
            }
        },
    }
    Ok(steps)
}

/// When a managed exit node's status comes from a provisioner other than the
/// one its annotation now names, the old machine is destroyed, with the old
/// provisioner, before any machine is created with the new one.
pub proof fn lemma_provisioner_change_destroys_first(node: ExitNode, p: Seq<char>, steps: Seq<NodeStep>)
    requires
        node.status matches Some(s) && s.provider@ != p,
        managed_plan(node, p, steps),
    ensures
        exists|d: int, c: int|
            0 <= d < c < steps.len() && (#[trigger] steps[d] matches NodeStep::DeleteMachine(old) && old@
                == node.status->0.provider@) && (#[trigger] steps[c] matches NodeStep::CreateMachine(q) && q@ == p),
        forall|i: int| 0 <= i < steps.len() && #[trigger] steps[i] is CreateMachine ==> i == steps.len() - 1,
{
    assert(steps[0] matches NodeStep::DeleteMachine(old) && old@ == node.status->0.provider@);
    assert(steps[2] matches NodeStep::CreateMachine(q) && q@ == p);
}

/// The provisioner reference whose machine must go when `node` is deleted:
/// its own for a managed exit node; none for an unmanaged one.
pub fn plan_exit_node_cleanup(node: &ExitNode) -> (r: Option<String>)
    ensures
        r == lookup(node.annotations@, EXIT_NODE_PROVISIONER_LABEL@),
        r is Some <==> is_managed(*node),
{
    node.provisioner()
}

/// An exit node provisioned for a service is managed: once it exists it gets a
/// machine, and deleting it destroys that machine with the provisioner that the
/// service named, written in full.
pub proof fn lemma_service_exit_node_is_managed(n: ExitNode, svc: Service, p: Seq<char>)
    requires
        is_exit_node_template(n, svc, p),
    ensures
        is_managed(n),
        lookup(n.annotations@, EXIT_NODE_PROVISIONER_LABEL@) matches Some(v) && v@ == qualified_ref(
            svc.namespace@,
            p,
        ),
        n.status is None,
{
    crate::kv::lemma_lookup_first(n.annotations@, EXIT_NODE_PROVISIONER_LABEL@);
}

/// In steady state, a managed exit node whose status comes from the provisioner
/// its annotation names is only refreshed: its status keeps that provisioner and
/// takes the IP that the cloud reports for its machine.
pub proof fn lemma_steady_state_status(node: ExitNode, p: Seq<char>, steps: Seq<NodeStep>, observed: String)
    requires
        node.status matches Some(s) && s.provider@ == p,
        managed_plan(node, p, steps),
    ensures
        steps.len() == 1,
        steps[0] matches NodeStep::UpdateMachine(q) && q@ == p,
        crate::cloud::refreshed(node.status->0, Some(observed)).ip == observed,
        crate::cloud::refreshed(node.status->0, Some(observed)).provider@ == p,
{
}

/// The password a tunnel credentials value holds: the text after `<user>:`,
/// or the whole value when it has no such prefix.
pub open spec fn password_of_auth(value: Seq<char>) -> Seq<char> {
    match strip_prefix_spec(value, DEFAULT_USERNAME@ + ":"@) {
        Some(p) => p,
        None => value,
    }
}

/// The tunnel password stored under `auth` in an exit node's credentials
/// secret. A missing key, or one that is not text, is `AuthFieldNotSet`.
pub fn node_password(secret: &Secret) -> (r: Result<String, ReconcileError>)
    ensures
        match secret_text(secret.data@, AUTH_SECRET_KEY@) {
            Some(v) => r matches Ok(p) && p@ == password_of_auth(v),
            None => r == Err::<String, ReconcileError>(ReconcileError::AuthFieldNotSet),
        },
{
    let value = match crate::cloud::secret_string(secret, AUTH_SECRET_KEY) {
        Ok(v) => v,
        Err(_) => return Err(ReconcileError::AuthFieldNotSet),
    };
    let mut prefix = String::from_str(DEFAULT_USERNAME);
    prefix.append(":");
    match strip_prefix(value.as_str(), prefix.as_str()) {
        Some(p) => Ok(p),
        None => Ok(value),
    }
}

} // verus!
