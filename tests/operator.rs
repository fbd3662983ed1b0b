use base64::Engine;
use chisel_operator::cloud::aws::{default_size as aws_default_size, AWSIdentity};
use chisel_operator::cloud::cloud_init::{generate_cloud_init_config, generate_user_data};
use chisel_operator::cloud::digitalocean::DigitalOceanProvisioner;
use chisel_operator::cloud::linode::{default_size as linode_default_size, LinodeProvisioner};
use chisel_operator::cloud::pwgen::{generate_password, password_from_indices, CHARSET};
use chisel_operator::cloud::{
    machine_id, provisioner_tag, public_address, refresh_status, secret_string, vm_name,
    NetworkAddress,
};
use chisel_operator::daemon::{
    check_service_managed, exit_node_for_service, find_exit_node_from_label,
    find_exit_node_provisioner_from_label, find_free_exit_nodes, get_svc_bound_exit_node,
    lb_ingress_for, node_password, plan_exit_node, select_exit_node_local, service_is_eligible,
    plan_exit_node_cleanup, plan_service_writes, provisioner_for_reference, reserved_host,
    service_status_patch, ExitNodeChoice, NodeStep, Reservation,
};
use chisel_operator::deployment::{
    create_owned_deployment, create_pod_template, generate_chisel_flags, generate_remote_arg,
    generate_tunnel_args, get_protocol_suffix, same_deployment,
};
use chisel_operator::error::ReconcileError;
use chisel_operator::ops::{
    check_exit_node_managed, parse_provisioner_label_value, ExitNode, ExitNodeProvisioner,
    ExitNodeProvisionerSpec, ExitNodeSpec, ExitNodeStatus, Secret,
};
use chisel_operator::address::{classify_address, split};
use chisel_operator::service::{AddressKind, LoadBalancerIngress, Service, ServicePort};
use chisel_operator::text::{i64_to_decimal, split_once, strip_prefix, u64_to_decimal};

const PROVISIONER: &str = "chisel-operator.io/exit-node-provisioner";
const NAME_LABEL: &str = "chisel-operator.io/exit-node-name";
const PROXY: &str = "chisel-operator.io/proxy-protocol";

fn s(v: &str) -> String {
    v.to_string()
}

fn kv(k: &str, v: &str) -> (String, String) {
    (s(k), s(v))
}

fn node(name: &str, ns: &str, host: &str) -> ExitNode {
    ExitNode {
        name: s(name),
        namespace: s(ns),
        annotations: vec![],
        spec: ExitNodeSpec {
            host: s(host),
            external_host: None,
            port: 9090,
            fingerprint: None,
            auth: None,
            chisel_image: None,
            default_route: false,
        },
        status: None,
    }
}

fn status(provider: &str, ip: &str, id: Option<&str>) -> ExitNodeStatus {
    ExitNodeStatus::new(s(provider), s("vm"), s(ip), id.map(s))
}

fn tcp(port: i32) -> ServicePort {
    ServicePort { port, protocol: Some(s("TCP")) }
}

fn service(name: &str, ns: &str) -> Service {
    Service {
        name: s(name),
        namespace: s(ns),
        labels: vec![],
        annotations: vec![],
        service_type: Some(s("LoadBalancer")),
        load_balancer_class: None,
        cluster_ip: Some(s("10.1.2.3")),
        ports: Some(vec![tcp(443)]),
        ingress: None,
    }
}

fn published(name: &str, ip: &str) -> Service {
    let mut svc = service(name, "default");
    svc.ingress = Some(LoadBalancerIngress { ip: Some(s(ip)), hostname: None });
    svc
}

#[test]
fn test_generate_cloud_init_config() {
    let password = "chisel:test";
    let config = generate_cloud_init_config(password, 9090);
    println!("{}", config);
    assert!(config.contains("AUTH=chisel:test"));
    assert!(config.contains(
        "ExecStart=/usr/local/bin/chisel server --port=9090 --reverse --auth chisel:test"
    ));
}

#[test]
fn cloud_init_document_shape() {
    let config = generate_cloud_init_config("chisel:pw", 7000);
    assert!(config.starts_with("#cloud-config\n{\"runcmd\":["));
    assert!(config.contains("--port=7000"));
    assert!(config.contains("\"path\":\"/etc/sysconfig/chisel\""));
    assert!(config.contains("\"content\":\"AUTH=chisel:pw\\n\""));
    assert!(config.contains("systemctl enable --now chisel"));
    assert_eq!(config, generate_cloud_init_config("chisel:pw", 7000));
}

#[test]
fn cloud_init_escapes_json() {
    let config = generate_cloud_init_config("a\"b\\c", 1);
    assert!(config.contains("AUTH=a\\\"b\\\\c\\n"));
}

#[test]
fn user_data_is_base64_of_document() {
    let data = generate_user_data("chisel:x", 9090);
    let decoded = base64::engine::general_purpose::STANDARD.decode(&data).unwrap();
    assert_eq!(String::from_utf8(decoded).unwrap(), generate_cloud_init_config("chisel:x", 9090));
    assert_ne!(data, generate_cloud_init_config("chisel:x", 9090));
}

#[test]
fn decimal_rendering() {
    assert_eq!(u64_to_decimal(0), "0");
    assert_eq!(u64_to_decimal(9090), "9090");
    assert_eq!(u64_to_decimal(u64::MAX), u64::MAX.to_string());
    assert_eq!(i64_to_decimal(-5), "-5");
    assert_eq!(i64_to_decimal(i64::MIN), i64::MIN.to_string());
}

#[test]
fn text_splitting() {
    assert_eq!(split_once("a/b/c", '/'), Some((s("a"), s("b/c"))));
    assert_eq!(split_once("abc", '/'), None);
    assert_eq!(strip_prefix("chisel:pw", "chisel:"), Some(s("pw")));
    assert_eq!(strip_prefix("pw", "chisel:"), None);
}

#[test]
fn provisioner_reference_namespaced_and_bare() {
    assert_eq!(parse_provisioner_label_value("default", "ns/name"), (s("ns"), s("name")));
    assert_eq!(parse_provisioner_label_value("default", "name"), (s("default"), s("name")));
}

#[test]
fn tunnel_args_single_tcp_port() {
    let svc = service("svc1", "default");
    assert_eq!(generate_tunnel_args(&svc), Ok(vec![s("R:443:10.1.2.3:443/tcp")]));
}

#[test]
fn tunnel_args_proxy_protocol_prefix() {
    let mut svc = service("svc1", "default");
    svc.annotations = vec![kv(PROXY, "true")];
    assert_eq!(generate_tunnel_args(&svc), Ok(vec![s("RP:443:10.1.2.3:443/tcp")]));
    svc.annotations = vec![kv(PROXY, "false")];
    assert_eq!(generate_tunnel_args(&svc), Ok(vec![s("R:443:10.1.2.3:443/tcp")]));
}

#[test]
fn tunnel_args_keep_port_order_and_protocols() {
    let mut svc = service("svc", "default");
    svc.cluster_ip = Some(s("10.0.0.9"));
    svc.ports = Some(vec![
        ServicePort { port: 53, protocol: Some(s("UDP")) },
        tcp(80),
        ServicePort { port: 7, protocol: None },
        ServicePort { port: 132, protocol: Some(s("SCTP")) },
    ]);
    assert_eq!(
        generate_tunnel_args(&svc),
        Ok(vec![
            s("R:53:10.0.0.9:53/udp"),
            s("R:80:10.0.0.9:80/tcp"),
            s("R:7:10.0.0.9:7"),
            s("R:132:10.0.0.9:132"),
        ])
    );
}

#[test]
fn tunnel_args_without_ports() {
    let mut svc = service("svc", "default");
    svc.ports = None;
    assert_eq!(generate_tunnel_args(&svc), Err(ReconcileError::NoPortsSet));
    svc.ports = Some(vec![]);
    assert_eq!(generate_tunnel_args(&svc), Err(ReconcileError::NoPortsSet));
}

#[test]
fn tunnel_args_without_cluster_ip() {
    let mut svc = service("svc", "default");
    svc.cluster_ip = None;
    assert_eq!(generate_tunnel_args(&svc), Err(ReconcileError::NoClusterIP));
}

#[test]
fn protocol_suffixes() {
    assert_eq!(get_protocol_suffix(&tcp(1)), "/tcp");
    assert_eq!(get_protocol_suffix(&ServicePort { port: 1, protocol: Some(s("UDP")) }), "/udp");
    assert_eq!(get_protocol_suffix(&ServicePort { port: 1, protocol: Some(s("tcp")) }), "");
    assert_eq!(get_protocol_suffix(&ServicePort { port: 1, protocol: None }), "");
}

#[test]
fn remote_arg_wraps_ipv6_only() {
    let n6 = node("en", "default", "2001:db8::1");
    assert_eq!(generate_remote_arg(&n6), "[2001:db8::1]:9090");
    let n4 = node("en", "default", "203.0.113.7");
    assert_eq!(generate_remote_arg(&n4), "203.0.113.7:9090");
    let dns = node("en", "default", "tunnel.example.com");
    assert_eq!(generate_remote_arg(&dns), "tunnel.example.com:9090");
}

#[test]
fn remote_arg_uses_effective_host() {
    let mut n = node("en", "default", "10.0.0.1");
    n.spec.external_host = Some(s("198.51.100.1"));
    n.spec.port = 443;
    assert_eq!(generate_remote_arg(&n), "198.51.100.1:443");
    n.status = Some(status("unmanaged", "192.0.2.5", None));
    assert_eq!(generate_remote_arg(&n), "192.0.2.5:443");
}

#[test]
fn chisel_flags_with_and_without_fingerprint() {
    let mut n = node("en", "default", "h");
    assert_eq!(generate_chisel_flags(&n), vec![s("-v")]);
    n.spec.fingerprint = Some(s("SHA256:abc"));
    assert_eq!(generate_chisel_flags(&n), vec![s("-v"), s("--fingerprint"), s("SHA256:abc")]);
}

#[test]
fn pod_template_for_unmanaged_label_selected_node() {
    let n = node("en1", "default", "203.0.113.7");
    let svc = service("svc1", "default");
    let t = create_pod_template(&svc, &n).unwrap();
    assert_eq!(t.args, vec![s("client"), s("-v"), s("203.0.113.7:9090"), s("R:443:10.1.2.3:443/tcp")]);
    assert_eq!(t.image, "jpillora/chisel:latest");
    assert_eq!(t.container_name, "chisel");
    assert_eq!(t.labels, vec![kv("tunnel", "svc1")]);
    assert_eq!(t.auth_secret, None);
}

#[test]
fn pod_template_with_auth_and_image() {
    let mut n = node("en1", "default", "203.0.113.7");
    n.spec.auth = Some(s("en1-auth"));
    n.spec.chisel_image = Some(s("example/chisel:1"));
    let t = create_pod_template(&service("svc1", "default"), &n).unwrap();
    assert_eq!(t.auth_secret, Some(s("en1-auth")));
    assert_eq!(t.image, "example/chisel:1");
}

#[test]
fn owned_deployment_named_after_service() {
    let n = node("en1", "exits", "203.0.113.7");
    let d = create_owned_deployment(&service("svc1", "default"), &n).unwrap();
    assert_eq!(d.name, "chisel-svc1");
    assert_eq!(d.namespace, "exits");
    assert_eq!(d.owner, "en1");
    assert_eq!(d.selector, vec![kv("tunnel", "svc1")]);
    let mut bad = service("svc1", "default");
    bad.cluster_ip = None;
    assert_eq!(create_owned_deployment(&bad, &n).err(), Some(ReconcileError::NoClusterIP));
}

#[test]
fn eligibility_by_type_and_class() {
    let mut svc = service("svc", "default");
    assert!(service_is_eligible(&svc, false));
    assert!(!service_is_eligible(&svc, true));
    svc.load_balancer_class = Some(s("chisel-operator.io/chisel-operator-class"));
    assert!(service_is_eligible(&svc, false));
    assert!(service_is_eligible(&svc, true));
    svc.load_balancer_class = Some(s("example.com/other"));
    assert!(!service_is_eligible(&svc, false));
    svc.load_balancer_class = None;
    svc.service_type = Some(s("ClusterIP"));
    assert!(!service_is_eligible(&svc, false));
}

#[test]
fn secret_name_and_host() {
    let mut n = node("en", "default", "203.0.113.7");
    assert_eq!(n.get_secret_name(), "en-auth");
    assert_eq!(n.get_host(), "203.0.113.7");
    n.spec.auth = Some(s("custom"));
    assert_eq!(n.get_secret_name(), "custom");
    n.spec.external_host = Some(s("ext.example.com"));
    assert_eq!(n.get_host(), "ext.example.com");
    n.status = Some(status("unmanaged", "198.51.100.9", None));
    assert_eq!(n.get_host(), "198.51.100.9");
}

#[test]
fn generated_secret_holds_user_and_password() {
    let mut n = node("service-svc2", "default", "");
    let secret = n.generate_secret("pw123");
    assert_eq!(secret.name, "service-svc2-auth");
    assert_eq!(secret.namespace, "default");
    assert_eq!(secret.auth, "chisel:pw123");
    n.spec.auth = Some(s("other"));
    assert_eq!(n.generate_secret("x").name, "other");
}

#[test]
fn managed_flags() {
    let mut n = node("en", "default", "h");
    assert!(!check_exit_node_managed(&n));
    n.annotations = vec![kv(PROVISIONER, "do1")];
    assert!(check_exit_node_managed(&n));
    let mut svc = service("svc", "default");
    assert!(!check_service_managed(&svc));
    svc.annotations = vec![kv(PROVISIONER, "default/do1")];
    assert!(check_service_managed(&svc));
}

#[test]
fn select_label_named_node() {
    let nodes = vec![node("en0", "default", "192.0.2.1"), node("en1", "default", "203.0.113.7")];
    let mut svc = service("svc1", "default");
    svc.labels = vec![kv(NAME_LABEL, "en1")];
    assert_eq!(select_exit_node_local(&svc, &vec![], &nodes, &None), Ok(ExitNodeChoice::Existing(1)));
    svc.labels = vec![kv(NAME_LABEL, "other/en1")];
    assert_eq!(select_exit_node_local(&svc, &vec![], &nodes, &None), Err(ReconcileError::NoAvailableExitNodes));
}

#[test]
fn select_reuses_bound_node() {
    let mut bound = node("en1", "default", "10.0.0.1");
    bound.status = Some(status("unmanaged", "203.0.113.7", None));
    let nodes = vec![node("en0", "default", "192.0.2.1"), bound];
    let svc = published("svc1", "203.0.113.7");
    assert_eq!(get_svc_bound_exit_node(&nodes, &svc), Some(1));
    assert_eq!(
        select_exit_node_local(&svc, &vec![svc.clone()], &nodes, &None),
        Ok(ExitNodeChoice::Existing(1))
    );
}

#[test]
fn select_provision_for_annotated_service() {
    let mut svc = service("svc2", "default");
    svc.annotations = vec![kv(PROVISIONER, "default/do1")];
    assert_eq!(select_exit_node_local(&svc, &vec![], &vec![], &None), Ok(ExitNodeChoice::Provision));
}

#[test]
fn select_first_free_node() {
    let mut waiting = node("managed", "default", "");
    waiting.annotations = vec![kv(PROVISIONER, "do1")];
    let taken = node("taken", "default", "192.0.2.1");
    let free = node("free", "default", "192.0.2.2");
    let nodes = vec![waiting, taken, free];
    let services = vec![published("other", "192.0.2.1")];
    let svc = service("svc", "default");
    assert_eq!(find_free_exit_nodes(&services, &nodes), vec![0, 2]);
    assert_eq!(select_exit_node_local(&svc, &services, &nodes, &None), Ok(ExitNodeChoice::Existing(2)));
}

#[test]
fn concurrent_binding_skips_reserved_node() {
    let nodes = vec![node("only", "default", "192.0.2.2")];
    let a = service("a", "default");
    let b = service("b", "default");
    assert_eq!(select_exit_node_local(&a, &vec![], &nodes, &None), Ok(ExitNodeChoice::Existing(0)));
    let recent = Some(Reservation { host: s("192.0.2.2"), age_secs: 0 });
    assert_eq!(select_exit_node_local(&b, &vec![], &nodes, &recent), Err(ReconcileError::NoAvailableExitNodes));
    let two = vec![node("only", "default", "192.0.2.2"), node("second", "default", "192.0.2.3")];
    assert_eq!(select_exit_node_local(&b, &vec![], &two, &recent), Ok(ExitNodeChoice::Existing(1)));
    let stale = Some(Reservation { host: s("192.0.2.2"), age_secs: 5 });
    assert_eq!(select_exit_node_local(&b, &vec![], &nodes, &stale), Ok(ExitNodeChoice::Existing(0)));
}

#[test]
fn exit_node_lookup_by_label() {
    let nodes = vec![node("en1", "a", "h1"), node("en1", "b", "h2")];
    assert_eq!(find_exit_node_from_label(&nodes, "en1", "b"), Some(1));
    assert_eq!(find_exit_node_from_label(&nodes, "a/en1", "b"), Some(0));
    assert_eq!(find_exit_node_from_label(&nodes, "c/en1", "b"), None);
}

fn do_provisioner(name: &str, ns: &str) -> ExitNodeProvisioner {
    ExitNodeProvisioner {
        name: s(name),
        namespace: s(ns),
        spec: ExitNodeProvisionerSpec::DigitalOcean(DigitalOceanProvisioner {
            region: s(""),
            auth: s("do-creds"),
            ssh_fingerprints: vec![],
        }),
    }
}

#[test]
fn provisioner_lookup_and_secret() {
    let ps = vec![do_provisioner("do1", "default"), do_provisioner("do1", "infra")];
    assert_eq!(find_exit_node_provisioner_from_label(&ps, "infra", "do1"), Some(1));
    assert_eq!(find_exit_node_provisioner_from_label(&ps, "infra", "default/do1"), Some(0));
    assert_eq!(find_exit_node_provisioner_from_label(&ps, "infra", "do2"), None);
    assert_eq!(ps[1].find_secret(), (s("do-creds"), s("infra")));
}

#[test]
fn managed_creation_template() {
    let mut svc = service("svc2", "default");
    svc.cluster_ip = Some(s("10.1.2.4"));
    svc.annotations = vec![kv(PROVISIONER, "do1")];
    let n = exit_node_for_service(&svc).unwrap();
    assert_eq!(n.name, "service-svc2");
    assert_eq!(n.namespace, "default");
    assert_eq!(n.annotations, vec![kv(PROVISIONER, "default/do1")]);
    assert_eq!(n.spec.host, "");
    assert_eq!(n.spec.port, 9090);
    assert!(n.spec.default_route);
    assert_eq!(n.spec.auth, Some(s("service-svc2-auth")));
    assert!(n.status.is_none());
    svc.annotations.push(kv(NAME_LABEL, "custom"));
    assert_eq!(exit_node_for_service(&svc).unwrap().name, "custom");
    assert_eq!(exit_node_for_service(&service("x", "default")).err(), Some(ReconcileError::CloudProvisionerNotFound));
}

#[test]
fn ingress_ip_or_hostname() {
    let n = node("en", "default", "203.0.113.7");
    let i = lb_ingress_for(&n);
    assert_eq!((i.ip, i.hostname), (Some(s("203.0.113.7")), None));
    let h = node("en", "default", "tunnel.example.com");
    let i = lb_ingress_for(&h);
    assert_eq!((i.ip, i.hostname), (None, Some(s("tunnel.example.com"))));
}

#[test]
fn status_patch_only_when_changed() {
    let n = node("en1", "default", "203.0.113.7");
    let svc = service("svc1", "default");
    let patch = service_status_patch(&svc, &n).unwrap();
    let mut settled = svc.clone();
    settled.ingress = Some(patch);
    assert!(service_status_patch(&settled, &n).is_none());
    let moved = published("svc1", "192.0.2.1");
    assert!(service_status_patch(&moved, &n).is_some());
}

fn managed_node(provider_annotation: &str) -> ExitNode {
    let mut n = node("en", "default", "");
    n.annotations = vec![kv(PROVISIONER, provider_annotation)];
    n.spec.auth = Some(s("en-auth"));
    n
}

#[test]
fn plan_for_unmanaged_node() {
    let n = node("en1", "default", "203.0.113.7");
    let steps = plan_exit_node(&n).unwrap();
    assert_eq!(steps.len(), 1);
    match &steps[0] {
        NodeStep::WriteStatus(st) => {
            assert_eq!(st.provider, "unmanaged");
            assert_eq!(st.name, "en1");
            assert_eq!(st.ip, "203.0.113.7");
            assert_eq!(st.id, None);
        }
        other => panic!("unexpected step {:?}", other),
    }
    let mut done = n.clone();
    done.status = Some(status("unmanaged", "203.0.113.7", None));
    assert!(plan_exit_node(&done).unwrap().is_empty());
}

#[test]
fn plan_for_managed_node() {
    let n = managed_node("default/do1");
    assert!(matches!(plan_exit_node(&n).unwrap().as_slice(), [NodeStep::CreateMachine(p)] if p == "default/do1"));
    let mut up = n.clone();
    up.status = Some(status("default/do1", "198.51.100.3", Some("42")));
    assert!(matches!(plan_exit_node(&up).unwrap().as_slice(), [NodeStep::UpdateMachine(p)] if p == "default/do1"));
    let mut nopw = n.clone();
    nopw.spec.auth = None;
    assert_eq!(plan_exit_node(&nopw).err().map(|e| e.message()), Some(ReconcileError::ManagedExitNodeNoPasswordSet.message()));
}

#[test]
fn plan_for_provisioner_change() {
    let mut n = managed_node("default/aws1");
    n.status = Some(status("default/do1", "198.51.100.3", Some("42")));
    let steps = plan_exit_node(&n).unwrap();
    assert!(matches!(
        steps.as_slice(),
        [NodeStep::DeleteMachine(old), NodeStep::ClearStatus, NodeStep::CreateMachine(new)]
            if old == "default/do1" && new == "default/aws1"
    ));
}

fn secret(entries: &[(&str, &[u8])]) -> Secret {
    Secret {
        name: s("creds"),
        namespace: s("default"),
        data: entries.iter().map(|(k, v)| (s(k), v.to_vec())).collect(),
    }
}

#[test]
fn node_password_strips_user() {
    assert_eq!(node_password(&secret(&[("auth", b"chisel:pw")])), Ok(s("pw")));
    assert_eq!(node_password(&secret(&[("auth", b"pw")])), Ok(s("pw")));
    assert_eq!(node_password(&secret(&[("other", b"x")])), Err(ReconcileError::AuthFieldNotSet));
    assert_eq!(node_password(&secret(&[("auth", &[0xff, 0xfe])])), Err(ReconcileError::AuthFieldNotSet));
}

#[test]
fn provider_tokens() {
    let dop = DigitalOceanProvisioner { region: s(""), auth: s("c"), ssh_fingerprints: vec![] };
    assert_eq!(dop.get_token(&secret(&[("DIGITALOCEAN_TOKEN", b"tok")])), Ok(s("tok")));
    assert_eq!(dop.get_token(&secret(&[])), Err(ReconcileError::CloudProvisionerSecretNotFound));
    let lin = LinodeProvisioner { auth: s("c"), region: s("us-east"), size: linode_default_size() };
    assert_eq!(lin.size, "g6-nanode-1");
    assert_eq!(lin.get_token(&secret(&[("LINODE_TOKEN", b"lt")])), Ok(s("lt")));
    assert!(matches!(lin.get_token(&secret(&[("LINODE_TOKEN", &[0xc3])])), Err(ReconcileError::CloudApi(_))));
    assert_eq!(secret_string(&secret(&[("k", b"v")]), "k"), Ok(s("v")));
}

#[test]
fn aws_identity_from_secret() {
    assert_eq!(aws_default_size(), "t2.micro");
    let id = AWSIdentity::from_secret(
        &secret(&[("AWS_ACCESS_KEY_ID", b"AKIA"), ("AWS_SECRET_ACCESS_KEY", b"SECRET-REDACTED")]),
        s("us-east-1"),
    )
    .unwrap();
    assert_eq!(id.access_key_id(), "AKIA");
    assert_eq!(id.secret_access_key(), "SECRET-REDACTED");
    assert_eq!(id.region, "us-east-1");
    assert!(AWSIdentity::from_secret(&secret(&[("AWS_ACCESS_KEY_ID", b"AKIA")]), s("r")).is_err());
    let made = AWSIdentity::new(s("a"), s("b"), s("c"));
    assert_eq!(made.access_key_id(), "a");
}

#[test]
fn password_generation() {
    let pw = generate_password(32);
    assert_eq!(pw.chars().count(), 32);
    assert!(pw.chars().all(|c| CHARSET.contains(c)));
    assert_eq!(generate_password(0), "");
    assert_eq!(password_from_indices(&vec![0, 26, 52, 71]), "Aa0~");
}

#[test]
fn machine_helpers() {
    let mut n = managed_node("infra/do1");
    assert_eq!(vm_name(&n, "infra/do1"), "do1-en");
    assert_eq!(vm_name(&n, "do1"), "do1-en");
    assert_eq!(provisioner_tag("infra/do1"), "chisel-operator-provisioner:infra/do1");
    assert_eq!(machine_id(&n), None);
    n.status = Some(status("infra/do1", "198.51.100.3", Some("42")));
    assert_eq!(machine_id(&n), Some(s("42")));
    let refreshed = refresh_status(status("p", "1.1.1.1", Some("7")), Some(s("2.2.2.2")));
    assert_eq!(refreshed.ip, "2.2.2.2");
    assert_eq!(refreshed.id, Some(s("7")));
    assert_eq!(refresh_status(status("p", "1.1.1.1", None), None).ip, "1.1.1.1");
    let nets = vec![
        NetworkAddress { kind: s("private"), address: s("10.0.0.2") },
        NetworkAddress { kind: s("public"), address: s("203.0.113.9") },
    ];
    assert_eq!(public_address(&nets), Some(s("203.0.113.9")));
    assert_eq!(public_address(&nets[..1].to_vec()), None);
}

#[test]
fn address_classification() {
    let (n, v4, v6) = (AddressKind::Hostname, AddressKind::Ipv4, AddressKind::Ipv6);
    let cases = [
        ("203.0.113.7", v4), ("0.0.0.0", v4), ("255.255.255.255", v4), ("256.1.1.1", n),
        ("01.2.3.4", n), ("1.2.3", n), ("1.2.3.4.5", n), ("1..2.3", n), ("2001:db8::1", v6),
        ("::", v6), ("::1", v6), ("1::", v6), ("1:2:3:4:5:6:7:8", v6), ("1:2:3:4:5:6:7:8:9", n),
        ("1:2:3:4:5:6:7::", v6), ("1:2:3:4:5:6:7:8::", n), ("::ffff:192.0.2.1", v6),
        ("1:2:3:4:5:6:192.0.2.1", v6), ("1:2:3:4:5:6:7:192.0.2.1", n), ("1::2::3", n), (":1::", n),
        ("1:::2", n), ("fe80::1%eth0", n), ("ABCD:ef01::", v6), ("12345::", n), ("g::1", n),
        ("example.com", n), ("", n), ("localhost", n), ("1.2.3.4:80", n), ("[::1]", n),
    ];
    for (case, kind) in cases {
        assert_eq!(classify_address(case), kind, "{case}");
    }
}

#[test]
fn splitting_keeps_empty_parts() {
    assert_eq!(split("a::b", ':'), vec![s("a"), s(""), s("b")]);
    assert_eq!(split("", ':'), vec![s("")]);
}

#[test]
fn exit_nodes_by_ip_lists_realised_nodes() {
    let mut a = node("a", "default", "h1");
    a.status = Some(status("unmanaged", "192.0.2.1", None));
    let b = node("b", "default", "h2");
    let nodes = vec![a, b];
    assert_eq!(chisel_operator::daemon::get_exit_nodes_by_ip(&nodes), vec![(s("192.0.2.1"), 0)]);
}

#[test]
fn settled_service_needs_no_writes() {
    let mut n = node("en1", "default", "203.0.113.7");
    n.status = Some(status("unmanaged", "203.0.113.7", None));
    let svc = service("svc1", "default");
    let first = plan_service_writes(&svc, &n, &None).unwrap();
    let ingress = first.status.clone().unwrap();
    let applied = first.deployment.clone().unwrap();
    assert_eq!(applied.name, "chisel-svc1");
    let mut settled = svc.clone();
    settled.ingress = Some(ingress);
    let again = plan_service_writes(&settled, &n, &Some(applied.clone())).unwrap();
    assert!(again.status.is_none());
    assert!(again.deployment.is_none());
    let mut stale = applied.clone();
    stale.template.args.pop();
    assert!(!same_deployment(&stale, &applied));
    assert!(plan_service_writes(&settled, &n, &Some(stale)).unwrap().deployment.is_some());
    let mut bad = svc.clone();
    bad.ports = None;
    assert_eq!(plan_service_writes(&bad, &n, &None).err(), Some(ReconcileError::NoPortsSet));
}

#[test]
fn cleanup_only_for_managed_nodes() {
    assert_eq!(plan_exit_node_cleanup(&node("en", "default", "h")), None);
    assert_eq!(plan_exit_node_cleanup(&managed_node("default/do1")), Some(s("default/do1")));
    let mut svc = service("svc2", "default");
    svc.annotations = vec![kv(PROVISIONER, "do1")];
    let template = exit_node_for_service(&svc).unwrap();
    assert_eq!(plan_exit_node_cleanup(&template), Some(s("default/do1")));
}

#[test]
fn error_messages() {
    assert_eq!(ReconcileError::KubeError(s("boom")).message(), "boom");
    assert_eq!(ReconcileError::CloudApi(s("down")).message(), "down");
    assert_eq!(ReconcileError::NoPortsSet.message(), "There are no ports set on this LoadBalancer");
}

#[test]
fn managed_creation_keeps_namespaced_reference() {
    let mut svc = service("svc2", "default");
    svc.cluster_ip = Some(s("10.1.2.4"));
    svc.annotations = vec![kv(PROVISIONER, "default/do1")];
    let n = exit_node_for_service(&svc).unwrap();
    assert_eq!(n.name, "service-svc2");
    assert_eq!(n.annotations, vec![kv(PROVISIONER, "default/do1")]);
    assert_eq!(n.spec.auth, Some(s("service-svc2-auth")));
    svc.annotations = vec![kv(PROVISIONER, "infra/do1")];
    assert_eq!(exit_node_for_service(&svc).unwrap().annotations, vec![kv(PROVISIONER, "infra/do1")]);
}

#[test]
fn reservation_and_provisioner_resolution() {
    let nodes = vec![node("a", "default", "192.0.2.1"), node("b", "default", "192.0.2.2")];
    assert_eq!(reserved_host(ExitNodeChoice::Existing(1), &nodes), Some(s("192.0.2.2")));
    assert_eq!(reserved_host(ExitNodeChoice::Provision, &nodes), None);
    let ps = vec![do_provisioner("do1", "default")];
    assert_eq!(provisioner_for_reference(&ps, "other", "default/do1"), Ok(0));
    assert_eq!(provisioner_for_reference(&ps, "other", "do1"), Err(ReconcileError::CloudProvisionerNotFound));
}
