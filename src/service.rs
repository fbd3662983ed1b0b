//! What the operator reads and writes of a LoadBalancer service.
use vstd::prelude::*;

verus! {

/// How an address is written: an IPv4 literal, an IPv6 literal, or a DNS name.
#[derive(Debug, Clone, Copy, PartialEq, Eq, Structural)]
pub enum AddressKind {
    Ipv4,
    Ipv6,
    Hostname,
}

/// One port of a service.
#[derive(Debug, Clone)]
pub struct ServicePort {
    /// The port the service listens on.
    pub port: i32,
    /// `TCP`, `UDP`, or another protocol name.
    pub protocol: Option<String>,
}

/// One published load balancer address: an IP or a hostname.
#[derive(Debug, Clone)]
pub struct LoadBalancerIngress {
    pub ip: Option<String>,
    pub hostname: Option<String>,
}

/// A service, with the fields the operator reads.
#[derive(Debug, Clone)]
pub struct Service {
    pub name: String,
    pub namespace: String,
    pub labels: Vec<(String, String)>,
    pub annotations: Vec<(String, String)>,
    /// `spec.type`.
    pub service_type: Option<String>,
    /// `spec.loadBalancerClass`.
    pub load_balancer_class: Option<String>,
    /// `spec.clusterIP`.
    pub cluster_ip: Option<String>,
    /// `spec.ports`.
    pub ports: Option<Vec<ServicePort>>,
    /// The first entry of `status.loadBalancer.ingress`.
    pub ingress: Option<LoadBalancerIngress>,
}

/// The published ingress IP of a service.
pub open spec fn svc_lb_ip(svc: Service) -> Option<String> {
    match svc.ingress {
        Some(i) => i.ip,
        None => None,
    }
}

/// The IP that a service publishes as its load balancer address, if any.
pub fn get_svc_lb_ip(svc: &Service) -> (r: Option<String>)
    ensures
        r == svc_lb_ip(*svc),
{
    match &svc.ingress {
        Some(i) => match &i.ip {
            Some(ip) => Some(ip.clone()),
            None => None,
        },
        None => None,
    }
}

} // verus!
