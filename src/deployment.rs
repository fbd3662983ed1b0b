//! The tunnel client workload of a service.
use vstd::prelude::*;
use crate::error::ReconcileError;
use crate::kv::{get_value, lookup};
use crate::ops::{effective_host, ExitNode, EXIT_NODE_PROXY_PROTOCOL_ANNOTATION};
use crate::address::{address_kind_of, classify_address};
use crate::service::{AddressKind, Service, ServicePort};
use crate::text::{opt_view, pair_views, same_opt_text, same_pairs, same_texts, views, i64_to_decimal, signed_decimal, decimal, u64_to_decimal};

verus! {

/// Client image used when the exit node names none.
pub const CHISEL_IMAGE: &'static str = "jpillora/chisel:latest";
/// Label key that ties a client pod to its service.
pub const TUNNEL_LABEL: &'static str = "tunnel";

/// The suffix that selects a port's protocol on the tunnel.
pub open spec fn protocol_suffix(p: ServicePort) -> Seq<char> {
    match p.protocol {
        Some(s) => if s@ == "TCP"@ {
            "/tcp"@
        } else if s@ == "UDP"@ {
            "/udp"@
        } else {
            ""@
        },
        None => ""@,
    }
}

/// Whether the service asks for the PROXY protocol.
pub open spec fn uses_proxy_protocol(svc: Service) -> bool {
    match lookup(svc.annotations@, EXIT_NODE_PROXY_PROTOCOL_ANNOTATION@) {
        Some(v) => v@ == "true"@,
        None => false,
    }
}

/// `R`, or `RP` under the PROXY protocol.
pub open spec fn remote_prefix(svc: Service) -> Seq<char> {
    if uses_proxy_protocol(svc) {
        "RP"@
    } else {
        "R"@
    }
}

/// The tunnel argument of one port: `<prefix>:<port>:<clusterIP>:<port><suffix>`.
pub open spec fn tunnel_arg(prefix: Seq<char>, cluster_ip: Seq<char>, p: ServicePort) -> Seq<char> {
    prefix + ":"@ + signed_decimal(p.port as int) + ":"@ + cluster_ip + ":"@ + signed_decimal(
        p.port as int,
    ) + protocol_suffix(p)
}

/// The tunnel arguments of a service, one per port in order; a service without
/// a cluster IP, or else without ports, has none.
pub open spec fn tunnel_args(svc: Service) -> Result<Seq<Seq<char>>, ReconcileError> {
    match svc.cluster_ip {
        None => Err(ReconcileError::NoClusterIP),
        Some(cip) => match svc.ports {
            None => Err(ReconcileError::NoPortsSet),
            Some(ports) => if ports@.len() == 0 {
                Err(ReconcileError::NoPortsSet)
            } else {
                Ok(
                    Seq::new(
                        ports@.len(),
                        |i: int| tunnel_arg(remote_prefix(svc), cip@, ports@[i]),
                    ),
                )
            },
        },
    }
}

/// The address clients dial, with an IPv6 literal in brackets.
pub open spec fn dial_host(host: Seq<char>, kind: AddressKind) -> Seq<char> {
    if kind is Ipv6 {
        "["@ + host + "]"@
    } else {
        host
    }
}

/// The remote argument of an exit node: `<host>:<port>`, an IPv6 host in brackets.
pub open spec fn remote_arg(node: ExitNode) -> Seq<char> {
    dial_host(effective_host(node), address_kind_of(effective_host(node))) + ":"@ + decimal(
        node.spec.port as nat,
    )
}

/// An exit node whose address is an IPv6 literal is dialled as `[host]:port`;
/// one whose address is an IPv4 literal or a name, as `host:port`.
pub proof fn lemma_remote_arg_brackets(node: ExitNode)
    ensures
        address_kind_of(effective_host(node)) is Ipv6 ==> remote_arg(node) == "["@ + effective_host(node)
            + "]"@ + ":"@ + decimal(node.spec.port as nat),
        !(address_kind_of(effective_host(node)) is Ipv6) ==> remote_arg(node) == effective_host(node) + ":"@
            + decimal(node.spec.port as nat),
{
}

/// The client flags of an exit node: `-v`, then its fingerprint when set.
pub open spec fn chisel_flags(node: ExitNode) -> Seq<Seq<char>> {
    match node.spec.fingerprint {
        Some(f) => seq!["-v"@, "--fingerprint"@, f@],
        None => seq!["-v"@],
    }
}

/// The whole argument list of the tunnel client.
pub open spec fn client_args(svc: Service, node: ExitNode) -> Result<
    Seq<Seq<char>>,
    ReconcileError,
> {
    match tunnel_args(svc) {
        Ok(t) => Ok(seq!["client"@] + chisel_flags(node) + seq![remote_arg(node)] + t),
        Err(e) => Err(e),
    }
}

/// The pod template of a tunnel client.
#[derive(Debug, Clone)]
pub struct PodTemplate {
    /// Pod labels: `tunnel=<service name>`.
    pub labels: Vec<(String, String)>,
    /// Name of the single container.
    pub container_name: String,
    /// Client image.
    pub image: String,
    /// Client arguments.
    pub args: Vec<String>,
    /// Secret whose `AUTH_SECRET_KEY` entry is passed, as a required reference,
    /// in the `AUTH_ENV` variable; none leaves the tunnel open.
    pub auth_secret: Option<String>,
}

/// The tunnel client deployment of a service, owned by its exit node.
#[derive(Debug, Clone)]
pub struct DeploymentPlan {
    /// `chisel-<service name>`.
    pub name: String,
    /// The exit node's namespace.
    pub namespace: String,
    /// Name of the owning exit node.
    pub owner: String,
    /// Selector labels: `tunnel=<service name>`.
    pub selector: Vec<(String, String)>,
    pub template: PodTemplate,
}

/// The one label of a tunnel client: `tunnel=<service name>`.
pub open spec fn tunnel_labels(labels: Seq<(String, String)>, svc: Service) -> bool {
    labels.len() == 1 && labels[0].0@ == TUNNEL_LABEL@ && labels[0].1@ == svc.name@
}

/// The client image of an exit node.
pub open spec fn client_image(node: ExitNode) -> Seq<char> {
    match node.spec.chisel_image {
        Some(i) => i@,
        None => CHISEL_IMAGE@,
    }
}

/// What a pod template for `svc` and `node` holds.
pub open spec fn is_pod_template(t: PodTemplate, svc: Service, node: ExitNode) -> bool {
    &&& tunnel_labels(t.labels@, svc)
    &&& t.container_name@ == "chisel"@
    &&& t.image@ == client_image(node)
    &&& client_args(svc, node) == Ok::<Seq<Seq<char>>, ReconcileError>(views(t.args@))
    &&& opt_view(t.auth_secret) == opt_view(node.spec.auth)
}

/// The name of the tunnel client deployment of a service.
pub open spec fn deployment_name(svc: Service) -> Seq<char> {
    "chisel-"@ + svc.name@
}

/// Services of different names get tunnel client deployments of different
/// names, so each bound service has exactly one.
pub proof fn lemma_deployment_name_injective(a: Service, b: Service)
    requires
        deployment_name(a) == deployment_name(b),
    ensures
        a.name@ == b.name@,
{
    let p = "chisel-"@;
    assert(a.name@ =~= deployment_name(a).subrange(p.len() as int, deployment_name(a).len() as int));
    assert(b.name@ =~= deployment_name(b).subrange(p.len() as int, deployment_name(b).len() as int));
}

/// Whether `d` is the tunnel client deployment of `svc` through `node`: named
/// `chisel-<service>`, in the exit node's namespace, owned by the exit node,
/// selecting `tunnel=<service>`, with the client's pod template.
pub open spec fn is_deployment_for(d: DeploymentPlan, svc: Service, node: ExitNode) -> bool {
    &&& d.name@ == deployment_name(svc)
    &&& d.namespace@ == node.namespace@
    &&& d.owner@ == node.name@
    &&& tunnel_labels(d.selector@, svc)
    &&& is_pod_template(d.template, svc, node)
}

/// The texts a deployment is made of.
pub open spec fn deployment_view(d: DeploymentPlan) -> (
    Seq<char>,
    Seq<char>,
    Seq<char>,
    Seq<(Seq<char>, Seq<char>)>,
    Seq<(Seq<char>, Seq<char>)>,
    Seq<char>,
    Seq<char>,
    Seq<Seq<char>>,
    Option<Seq<char>>,
) {
    (
        d.name@,
        d.namespace@,
        d.owner@,
        pair_views(d.selector@),
        pair_views(d.template.labels@),
        d.template.container_name@,
        d.template.image@,
        views(d.template.args@),
        opt_view(d.template.auth_secret),
    )
}

proof fn lemma_tunnel_labels_view(labels: Seq<(String, String)>, svc: Service)
    requires
        tunnel_labels(labels, svc),
    ensures
        pair_views(labels) == seq![(TUNNEL_LABEL@, svc.name@)],
{
    assert(pair_views(labels) =~= seq![(TUNNEL_LABEL@, svc.name@)]);
}

proof fn lemma_tunnel_labels_from_view(labels: Seq<(String, String)>, other: Seq<(String, String)>, svc: Service)
    requires
        tunnel_labels(other, svc),
        pair_views(labels) == pair_views(other),
    ensures
        tunnel_labels(labels, svc),
{
    lemma_tunnel_labels_view(other, svc);
    assert(pair_views(labels).len() == 1);
    assert(pair_views(labels)[0] == (labels[0].0@, labels[0].1@));
}

/// Given one deployment for `svc` through `node`, another is one too exactly
/// when it is made of the same texts.
pub proof fn lemma_deployment_for_unique(a: DeploymentPlan, b: DeploymentPlan, svc: Service, node: ExitNode)
    requires
        is_deployment_for(a, svc, node),
    ensures
        is_deployment_for(b, svc, node) <==> deployment_view(a) == deployment_view(b),
{
    lemma_tunnel_labels_view(a.selector@, svc);
    lemma_tunnel_labels_view(a.template.labels@, svc);
    if is_deployment_for(b, svc, node) {
        lemma_tunnel_labels_view(b.selector@, svc);
        lemma_tunnel_labels_view(b.template.labels@, svc);
    }
    if deployment_view(a) == deployment_view(b) {
        lemma_tunnel_labels_from_view(b.selector@, a.selector@, svc);
        lemma_tunnel_labels_from_view(b.template.labels@, a.template.labels@, svc);
    }
}

/// Whether two deployments are made of the same texts.
pub fn same_deployment(a: &DeploymentPlan, b: &DeploymentPlan) -> (r: bool)
    ensures
        r == (deployment_view(*a) == deployment_view(*b)),
{
    a.name == b.name && a.namespace == b.namespace && a.owner == b.owner && same_pairs(&a.selector, &b.selector)
        && same_pairs(&a.template.labels, &b.template.labels) && a.template.container_name
        == b.template.container_name && a.template.image == b.template.image && same_texts(
        &a.template.args,
        &b.template.args,
    ) && same_opt_text(&a.template.auth_secret, &b.template.auth_secret)
}

fn tunnel_label(svc: &Service) -> (r: Vec<(String, String)>)
    ensures
        tunnel_labels(r@, *svc),
{
    let mut v: Vec<(String, String)> = Vec::new();
    v.push((String::from_str(TUNNEL_LABEL), svc.name.clone()));
    v
}

/// The pod template of the tunnel client that connects `source` to `exit_node`.
pub fn create_pod_template(source: &Service, exit_node: &ExitNode) -> (r:
    Result<PodTemplate, ReconcileError>)
    ensures
        match client_args(*source, *exit_node) {
            Ok(_) => r matches Ok(t) && is_pod_template(t, *source, *exit_node),
            Err(e) => r == Err::<PodTemplate, ReconcileError>(e),
        },
{
    let mut tunnel = match generate_tunnel_args(source) {
        Ok(t) => t,
        Err(e) => return Err(e),
    };
    let mut args: Vec<String> = Vec::new();
    args.push(String::from_str("client"));
    let mut flags = generate_chisel_flags(exit_node);
    args.append(&mut flags);
    args.push(generate_remote_arg(exit_node));
    args.append(&mut tunnel);
    let ghost t = tunnel_args(*source)->Ok_0;
    assert(views(args@) =~= seq!["client"@] + chisel_flags(*exit_node) + seq![remote_arg(*exit_node)] + t);
    let image = match &exit_node.spec.chisel_image {
        Some(i) => i.clone(),
        None => String::from_str(CHISEL_IMAGE),
    };
    let auth_secret = match &exit_node.spec.auth {
        Some(a) => Some(a.clone()),
        None => None,
    };
    Ok(PodTemplate {
        labels: tunnel_label(source),
        container_name: String::from_str("chisel"),
        image,
        args,
        auth_secret,
    })
}

/// The tunnel client deployment of `source`, in the namespace of `exit_node`
/// and owned by it.
pub fn create_owned_deployment(source: &Service, exit_node: &ExitNode) -> (r:
    Result<DeploymentPlan, ReconcileError>)
    ensures
        match client_args(*source, *exit_node) {
            Ok(_) => r matches Ok(d) && is_deployment_for(d, *source, *exit_node),
            Err(e) => r == Err::<DeploymentPlan, ReconcileError>(e),
        },
{
    let template = create_pod_template(source, exit_node)?;
    let mut name = String::from_str("chisel-");
    name.append(source.name.as_str());
    Ok(DeploymentPlan {
        name,
        namespace: exit_node.namespace.clone(),
        owner: exit_node.name.clone(),
        selector: tunnel_label(source),
        template,
    })
}

/// The protocol suffix of a port.
pub fn get_protocol_suffix(svcport: &ServicePort) -> (r: &'static str)
    ensures
        r@ == protocol_suffix(*svcport),
{
    match &svcport.protocol {
        Some(p) => {
            if *p == String::from_str("TCP") {
                "/tcp"
            } else if *p == String::from_str("UDP") {
                "/udp"
            } else {
                ""
            }
        },
        None => "",
    }
}

fn proxy_protocol(svc: &Service) -> (r: bool)
    ensures
        r == uses_proxy_protocol(*svc),
{
    match get_value(&svc.annotations, EXIT_NODE_PROXY_PROTOCOL_ANNOTATION) {
        Some(v) => v == String::from_str("true"),
        None => false,
    }
}

/// The remote argument `<host>:<port>` of an exit node, with an IPv6 host in brackets.
pub fn generate_remote_arg(node: &ExitNode) -> (r: String)
    ensures
        r@ == remote_arg(*node),
{
    let host = node.get_host();
    let host_kind = classify_address(host.as_str());
    let mut out = if host_kind == AddressKind::Ipv6 {
        let mut s = String::from_str("[");
        s.append(host.as_str());
        s.append("]");
        s
    } else {
        host
    };
    out.append(":");
    let port = u64_to_decimal(node.spec.port as u64);
    out.append(port.as_str());
    out
}

fn port_arg(prefix: &str, cluster_ip: &String, p: &ServicePort) -> (r: String)
    ensures
        r@ == tunnel_arg(prefix@, cluster_ip@, *p),
{
    let port = i64_to_decimal(p.port as i64);
    let mut s = String::from_str(prefix);
    s.append(":");
    s.append(port.as_str());
    s.append(":");
    s.append(cluster_ip.as_str());
    s.append(":");
    s.append(port.as_str());
    s.append(get_protocol_suffix(p));
    s
}

/// The tunnel arguments of a service: one per port, in order.
pub fn generate_tunnel_args(svc: &Service) -> (r: Result<Vec<String>, ReconcileError>)
    ensures
        match tunnel_args(*svc) {
            Ok(t) => r matches Ok(v) && views(v@) == t,
            Err(e) => r == Err::<Vec<String>, ReconcileError>(e),
        },
{
    let prefix: &str = if proxy_protocol(svc) {
        "RP"
    } else {
        "R"
    };
    let cluster_ip = match &svc.cluster_ip {
        Some(c) => c,
        None => return Err(ReconcileError::NoClusterIP),
    };
    let ports = match &svc.ports {
        Some(p) => p,
        None => return Err(ReconcileError::NoPortsSet),
    };
    if ports.len() == 0 {
        return Err(ReconcileError::NoPortsSet);
    }
    let ghost expected = Seq::new(
        ports@.len(),
        |i: int| tunnel_arg(remote_prefix(*svc), cluster_ip@, ports@[i]),
    );
    let mut out: Vec<String> = Vec::new();
    let mut i: usize = 0;
    while i < ports.len()
        invariant
            i <= ports@.len(),
            prefix@ == remote_prefix(*svc),
            out@.len() == i,
            forall|j: int| 0 <= j < i ==> #[trigger] out@[j]@ == expected[j],
            expected.len() == ports@.len(),
            forall|j: int|
                0 <= j < ports@.len() ==> #[trigger] expected[j] == tunnel_arg(
                    remote_prefix(*svc),
                    cluster_ip@,
                    ports@[j],
                ),
        decreases ports@.len() - i,
    {
        out.push(port_arg(prefix, cluster_ip, &ports[i]));
        i = i + 1;
    }
    assert(views(out@) =~= expected);
    Ok(out)
}

/// The client flags of an exit node.
pub fn generate_chisel_flags(node: &ExitNode) -> (r: Vec<String>)
    ensures
        views(r@) == chisel_flags(*node),
{
    let mut flags: Vec<String> = Vec::new();
    flags.push(String::from_str("-v"));
    match &node.spec.fingerprint {
        Some(f) => {
            flags.push(String::from_str("--fingerprint"));
            flags.push(f.clone());
        },
        None => {},
    }
    assert(views(flags@) =~= chisel_flags(*node));
    flags
}

} // verus!
