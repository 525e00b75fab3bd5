use torc_controller::config::{
    first_document, first_of, read_nodes, ConfigError, NodeConfig, Settings, Timing,
};
use torc_controller::manager::StateManager;
use torc_controller::network_agent::{Agent, RouteOp};

fn s(text: &str) -> String {
    text.to_string()
}

const FULL: &str = "
name: C1
ipmiproxy: proxy.local:8080
network-agent:
  type: fboss
  connection: $MASTER_IP:5909
statesync:
  poll_interval_in_seconds: 5
stateclean:
  poll_interval_in_seconds: 7
  timeout_in_seconds: 30
  restart_delay_in_seconds: 10
nodes:
  - name: n1
    ip: 10.0.1.1
    external_ip: 10.0.0.11
    management_ip: 10.0.2.1
    port: 3
    type: slave
  - name: master
    ip: $MASTER_IP
    external_ip: $MASTER_IP
    management_ip: 10.0.2.2
    type: master
";

#[test]
fn settings_are_read_from_the_document() {
    let doc = first_document(FULL).unwrap();
    let settings = Settings::from_yaml(&doc, &s("10.0.0.1"));
    assert_eq!(settings.name, "C1");
    assert_eq!(settings.ipmi_proxy, "proxy.local:8080");
    assert_eq!(settings.network_agent_type, "fboss");
    assert_eq!(settings.network_agent_connection, "10.0.0.1:5909");
}

#[test]
fn settings_default_where_the_document_is_silent() {
    let doc = first_document("other: 1\n").unwrap();
    let settings = Settings::from_yaml(&doc, &s("10.0.0.1"));
    assert_eq!(settings.name, "torc-controller");
    assert_eq!(settings.ipmi_proxy, "undefined");
    assert_eq!(settings.network_agent_type, "undefined");
    assert_eq!(settings.network_agent_connection, "undefined");
}

#[test]
fn settings_from_parts_replace_every_master_ip() {
    let settings = Settings::from_parts(
        None,
        Some(s("p")),
        Some(s("snaproute")),
        Some(s("$MASTER_IP:1,$MASTER_IP:2")),
        &s("10.9.8.7"),
    );
    assert_eq!(settings.name, "torc-controller");
    assert_eq!(settings.ipmi_proxy, "p");
    assert_eq!(settings.network_agent_type, "snaproute");
    assert_eq!(settings.network_agent_connection, "10.9.8.7:1,10.9.8.7:2");
}

#[test]
fn timing_needs_all_four_periods() {
    let doc = first_document(FULL).unwrap();
    assert_eq!(
        Timing::from_yaml(&doc),
        Some(Timing {
            sync_poll_interval: 5,
            clean_poll_interval: 7,
            clean_timeout: 30,
            restart_delay: 10,
        })
    );
    let partial = first_document("statesync:\n  poll_interval_in_seconds: 5\n").unwrap();
    assert_eq!(Timing::from_yaml(&partial), None);
    assert_eq!(Timing::from_parts(Some(1), Some(2), Some(3), None), None);
    assert_eq!(Timing::from_parts(None, Some(2), Some(3), Some(4)), None);
    assert_eq!(
        Timing::from_parts(Some(1), Some(2), Some(3), Some(4)),
        Some(Timing {
            sync_poll_interval: 1,
            clean_poll_interval: 2,
            clean_timeout: 3,
            restart_delay: 4,
        })
    );
}

#[test]
fn nodes_are_read_in_order_with_defaults() {
    let doc = first_document(FULL).unwrap();
    let nodes = read_nodes(&doc, &s("10.0.0.1")).unwrap();
    assert_eq!(nodes.len(), 2);
    assert_eq!(nodes[0].name, "n1");
    assert_eq!(nodes[0].ip, "10.0.1.1");
    assert_eq!(nodes[0].external_ip, "10.0.0.11");
    assert_eq!(nodes[0].management_ip, "10.0.2.1");
    assert_eq!(nodes[0].port, 3);
    assert_eq!(nodes[0].node_type, "slave");
    assert_eq!(nodes[1].name, "master");
    assert_eq!(nodes[1].ip, "10.0.0.1");
    assert_eq!(nodes[1].external_ip, "10.0.0.1");
    assert_eq!(nodes[1].port, 0);
    assert_eq!(nodes[1].node_type, "master");
}

#[test]
fn node_from_parts_defaults() {
    let node = NodeConfig::from_parts(None, None, None, None, None, None, &s("m"));
    assert_eq!(node.name, "");
    assert_eq!(node.ip, "");
    assert_eq!(node.external_ip, "");
    assert_eq!(node.management_ip, "");
    assert_eq!(node.port, 0);
    assert_eq!(node.node_type, "");
    let node = NodeConfig::from_parts(
        Some(s("n")),
        Some(s("$MASTER_IP")),
        Some(s("x$MASTER_IPy")),
        Some(s("$MASTER_IP")),
        Some(-4),
        Some(s("slave")),
        &s("1.2.3.4"),
    );
    assert_eq!(node.ip, "1.2.3.4");
    assert_eq!(node.external_ip, "x1.2.3.4y");
    assert_eq!(node.management_ip, "$MASTER_IP");
    assert_eq!(node.port, -4);
}

#[test]
fn malformed_text_is_refused() {
    match first_document("a: [b, c") {
        Err(ConfigError::Malformed { reason }) => {
            assert!(reason.contains(" at line "));
            assert!(reason.contains(" column "));
        }
        _ => panic!("a text that is no YAML was taken"),
    }
}

#[test]
fn empty_text_holds_no_document() {
    assert_eq!(first_document("").err(), Some(ConfigError::Empty));
    assert_eq!(first_of(vec![]).err(), Some(ConfigError::Empty));
}

#[test]
fn first_document_of_several() {
    let doc = first_document("name: one\n---\nname: two\n").unwrap();
    assert_eq!(Settings::from_yaml(&doc, &s("m")).name, "one");
}

#[test]
fn manager_starts_from_the_configuration() {
    let doc = first_document(FULL).unwrap();
    let mut m = StateManager::new(s("10.0.0.1"), s("10.0.0.2"), &doc).ok().unwrap();
    assert_eq!(m.get_my_name(), "C1");
    assert_eq!(m.get_master_ip(), "10.0.0.1");
    assert_eq!(m.get_my_ip(), "10.0.0.2");
    assert_eq!(m.get_ipmi_proxy(), "proxy.local:8080");
    assert_eq!(m.get_network_agent_type(), "fboss");
    assert_eq!(m.get_network_agent_connection(), "10.0.0.1:5909");
    let nodes = m.request_list_nodes();
    assert_eq!(nodes.len(), 2);
    assert_eq!(nodes[0].name, "n1");
    assert_eq!(nodes[0].port_id, 3);
    assert!(!nodes[0].active);
    assert_eq!(nodes[0].node_function, "none");
    assert!(nodes[0].last_seen > 1_500_000_000);
    assert_eq!(nodes[1].external_ip, "10.0.0.1");
    assert!(m.request_list_running_tasks().is_empty());
    assert_eq!(m.state.task_list.len(), 0);
}

#[test]
fn framework_id_is_the_name_and_a_fresh_text() {
    let doc = first_document(FULL).unwrap();
    let a = StateManager::new(s("10.0.0.1"), s("10.0.0.2"), &doc).ok().unwrap();
    let b = StateManager::new(s("10.0.0.1"), s("10.0.0.2"), &doc).ok().unwrap();
    let id = a.get_my_framework_id();
    assert!(id.starts_with("C1-"));
    assert_eq!(id.len(), 3 + 32);
    assert!(id[3..].chars().all(|c| c.is_ascii_hexdigit()));
    assert_ne!(id, b.get_my_framework_id());
}

#[test]
fn configuration_without_nodes_is_refused() {
    let doc = first_document("name: C1\n").unwrap();
    assert_eq!(StateManager::new(s("m"), s("i"), &doc).err(), Some(ConfigError::NoNodes));
    assert!(read_nodes(&doc, &s("m")).is_none());
}

#[test]
fn loading_nodes_replaces_by_name() {
    let doc = first_document("nodes:\n  - name: a\n    port: 1\n  - name: a\n    port: 2\n  - name: b\n").unwrap();
    let nodes = read_nodes(&doc, &s("m")).unwrap();
    assert_eq!(nodes.len(), 3);
    let mut m = StateManager::new(s("m"), s("i"), &doc).ok().unwrap();
    let listed = m.request_list_nodes();
    assert_eq!(listed.len(), 2);
    assert_eq!(listed[0].name, "a");
    assert_eq!(listed[0].port_id, 2);
    assert_eq!(listed[1].name, "b");
}

#[test]
fn start_up_gives_the_manager_and_the_reset() {
    let doc = first_document(FULL).unwrap();
    let (mut m, reset) = StateManager::start_up(s("10.0.0.1"), s("10.0.0.2"), &doc).ok().unwrap();
    let reset = reset.unwrap();
    assert_eq!(reset.agent, Agent::Fboss);
    assert_eq!(reset.op, RouteOp::ResetFib);
    assert_eq!(reset.connection, "10.0.0.1:5909");
    assert_eq!(reset.route_to, "");
    let nodes = m.request_list_nodes();
    assert_eq!(nodes.len(), 2);
    let n1 = m.request_node(s("n1")).unwrap();
    assert_eq!(n1.ip, "10.0.1.1");
    assert_eq!(n1.external_ip, "10.0.0.11");
    assert_eq!(n1.management_ip, "10.0.2.1");
    assert_eq!(n1.port_id, 3);
    assert_eq!(n1.node_type, "slave");
    assert!(!n1.active);
    let master = m.request_node(s("master")).unwrap();
    assert_eq!(master.ip, "10.0.0.1");
    assert_eq!(master.external_ip, "10.0.0.1");
}

#[test]
fn start_up_without_a_known_agent_resets_nothing() {
    let doc = first_document("nodes: []\n").unwrap();
    let (mut m, reset) = StateManager::start_up(s("m"), s("i"), &doc).ok().unwrap();
    assert!(reset.is_none());
    assert!(m.request_list_nodes().is_empty());
    let none = first_document("name: C1\n").unwrap();
    assert_eq!(StateManager::start_up(s("m"), s("i"), &none).err(), Some(ConfigError::NoNodes));
}
