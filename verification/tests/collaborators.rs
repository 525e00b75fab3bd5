use torc_controller::calico::{configure_network, shutdown_network, Command, DEFAULT_PORT};
use torc_controller::clock::overdue;
use torc_controller::consul::{
    register, register_controller, register_running_task, register_service,
    register_torc_controller, register_unmanaged_service,
};
use torc_controller::network_agent::{add_route, agent, delete_route, reset_fib, Agent, RouteOp};
use torc_controller::node::Node;
use torc_controller::task::{Task, TaskState, SLA};

fn s(text: &str) -> String {
    text.to_string()
}

fn node(name: &str, ip: &str, node_type: &str) -> Node {
    Node {
        name: s(name),
        ip: s(ip),
        external_ip: String::new(),
        management_ip: String::new(),
        node_type: s(node_type),
        node_function: s("none"),
        active: false,
        slave_id: String::new(),
        port_id: 0,
        last_seen: 0,
    }
}

fn shown(commands: &Vec<Command>) -> Vec<(String, i16, String, String)> {
    commands.iter().map(|c| (c.ip.clone(), c.port, c.cmd.clone(), c.env.clone())).collect()
}

const ETCD: &str = "ETCD_AUTHORITY=etcd.service.torc:2379";

#[test]
fn overdue_is_a_strict_comparison_of_the_exact_sum() {
    assert!(overdue(100, 30, 131));
    assert!(!overdue(100, 30, 130));
    assert!(!overdue(100, 30, 0));
    assert!(!overdue(i64::MAX, 1, i64::MAX));
    assert!(overdue(i64::MIN, -1, i64::MIN));
    assert!(overdue(-5, 2, -2));
}

#[test]
fn registration_has_the_agent_url_and_the_service_description() {
    let r = register(&s("10.0.0.1"), &s("web"), &s("192.168.0.5"));
    assert_eq!(r.address, "http://10.0.0.1:8500/v1/agent/service/register");
    assert_eq!(r.body, "{\"Name\": \"web\",\"Address\": \"192.168.0.5\"}");
}

#[test]
fn every_registration_entry_builds_the_same_request() {
    let task = Task {
        name: s("api"),
        id: s("z-1"),
        controller: s("C2"),
        image: String::new(),
        node_name: String::new(),
        node_type: String::new(),
        node_function: String::new(),
        dependent_service: String::new(),
        arguments: String::new(),
        parameters: String::new(),
        memory: 0,
        cpu: 0,
        privileged: false,
        sla: SLA { preemptable: true },
        is_metered: false,
        is_system_service: false,
        is_job: false,
        volumes: vec![],
        network_type: String::new(),
        ip: s("192.168.0.7"),
        slave_id: String::new(),
        state: TaskState::Running,
        last_update: 0,
    };
    let expected_body = "{\"Name\": \"api\",\"Address\": \"192.168.0.7\"}";
    let expected_address = "http://m:8500/v1/agent/service/register";
    for r in [
        register_running_task(&s("m"), &task),
        register_service(&s("m"), &task),
        register_torc_controller(&s("m"), &s("api"), &s("192.168.0.7")),
        register_unmanaged_service(&s("m"), &s("api"), &s("192.168.0.7")),
        register_controller(&s("m"), &s("api"), &s("192.168.0.7")),
    ] {
        assert_eq!(r.address, expected_address);
        assert_eq!(r.body, expected_body);
    }
}

#[test]
fn agent_types() {
    assert_eq!(agent(&s("fboss")), Some(Agent::Fboss));
    assert_eq!(agent(&s("snaproute")), Some(Agent::Snaproute));
    assert_eq!(agent(&s("undefined")), None);
    assert_eq!(agent(&s("FBOSS")), None);
    assert_eq!(agent(&s("")), None);
}

#[test]
fn add_route_installs_a_host_route() {
    let c = add_route(&s("fboss"), &s("10.0.0.1:5909"), &s("192.168.0.7"), &s("10.0.0.11")).unwrap();
    assert_eq!(c.agent, Agent::Fboss);
    assert_eq!(c.op, RouteOp::AddRoute);
    assert_eq!(c.connection, "10.0.0.1:5909");
    assert_eq!(c.route_to, "192.168.0.7/32");
    assert_eq!(c.route_via, "10.0.0.11");
    let c = add_route(&s("snaproute"), &s("c"), &s("1.2.3.4"), &s("5.6.7.8")).unwrap();
    assert_eq!(c.agent, Agent::Snaproute);
}

#[test]
fn add_route_does_nothing_without_a_gateway() {
    assert!(add_route(&s("fboss"), &s("10.0.0.1:5909"), &s("192.168.0.7"), &s("")).is_none());
}

#[test]
fn add_route_does_nothing_for_the_own_address() {
    assert!(add_route(&s("fboss"), &s("10.0.0.1:5909"), &s("10.0.0.1"), &s("10.0.0.11")).is_none());
    assert!(add_route(&s("fboss"), &s("10.0.0.1:5909"), &s(""), &s("10.0.0.11")).is_none());
    assert!(add_route(&s("fboss"), &s("10.0.0.1:5909"), &s("0.0.0.1"), &s("10.0.0.11")).is_some());
}

#[test]
fn unknown_agent_type_is_dropped() {
    assert!(add_route(&s("quagga"), &s("c"), &s("1.2.3.4"), &s("5.6.7.8")).is_none());
    assert!(add_route(&s("undefined"), &s("c"), &s("1.2.3.4"), &s("5.6.7.8")).is_none());
    assert!(delete_route(&s("quagga"), &s("c"), &s("1.2.3.4")).is_none());
    assert!(reset_fib(&s("quagga"), &s("c")).is_none());
    assert!(reset_fib(&s("undefined"), &s("c")).is_none());
}

#[test]
fn delete_route_removes_a_host_route() {
    let c = delete_route(&s("snaproute"), &s("conn"), &s("192.168.0.7")).unwrap();
    assert_eq!(c.agent, Agent::Snaproute);
    assert_eq!(c.op, RouteOp::DeleteRoute);
    assert_eq!(c.connection, "conn");
    assert_eq!(c.route_to, "192.168.0.7/32");
    assert_eq!(c.route_via, "");
    assert!(delete_route(&s("snaproute"), &s("conn"), &s("")).is_none());
}

#[test]
fn reset_fib_goes_to_the_known_agent() {
    let c = reset_fib(&s("fboss"), &s("conn")).unwrap();
    assert_eq!(c.agent, Agent::Fboss);
    assert_eq!(c.op, RouteOp::ResetFib);
    assert_eq!(c.connection, "conn");
    assert_eq!(c.route_to, "");
    assert_eq!(c.route_via, "");
}

#[test]
fn configure_network_joins_every_slave_then_creates_once() {
    let nodes = vec![
        node("m", "10.0.1.1", "master"),
        node("a", "10.0.1.2", "slave"),
        node("b", "10.0.1.3", "slave"),
    ];
    let got = shown(&configure_network(&nodes));
    let expected = vec![
        (s("10.0.1.2"), 8085, s("/home/bladerunner/calicoctl node --libnetwork"), s(ETCD)),
        (s("10.0.1.3"), 8085, s("/home/bladerunner/calicoctl node --libnetwork"), s(ETCD)),
        (
            s("10.0.1.2"),
            8085,
            s("/home/bladerunner/calicoctl pool add 192.168.0.0/16 --nat-outgoing"),
            s(ETCD),
        ),
        (
            s("10.0.1.2"),
            8085,
            s("docker network create --driver calico --ipam-driver calico torc"),
            s(""),
        ),
    ];
    assert_eq!(got, expected);
    assert_eq!(DEFAULT_PORT, 8085);
}

#[test]
fn shutdown_network_stops_every_slave_then_removes_once() {
    let nodes = vec![
        node("a", "10.0.1.2", "slave"),
        node("m", "10.0.1.1", "master"),
        node("b", "10.0.1.3", "slave"),
    ];
    let got = shown(&shutdown_network(&nodes));
    let expected = vec![
        (s("10.0.1.2"), 8085, s("/home/bladerunner/calicoctl node stop"), s(ETCD)),
        (
            s("10.0.1.2"),
            8085,
            s("/home/bladerunner/calicoctl node remove --remove-endpoints"),
            s(ETCD),
        ),
        (s("10.0.1.3"), 8085, s("/home/bladerunner/calicoctl node stop"), s(ETCD)),
        (
            s("10.0.1.3"),
            8085,
            s("/home/bladerunner/calicoctl node remove --remove-endpoints"),
            s(ETCD),
        ),
        (s("10.0.1.2"), 8085, s("/home/bladerunner/calicoctl pool remove 192.168.0.0/16"), s(ETCD)),
        (s("10.0.1.2"), 8085, s("docker network rm torc"), s("")),
    ];
    assert_eq!(got, expected);
}

#[test]
fn no_slave_no_command() {
    let nodes = vec![node("m", "10.0.1.1", "master"), node("x", "10.0.1.9", "Slave")];
    assert!(configure_network(&nodes).is_empty());
    assert!(shutdown_network(&nodes).is_empty());
    assert!(configure_network(&vec![]).is_empty());
    assert!(shutdown_network(&vec![]).is_empty());
}
