use torc_controller::config::Settings;
use torc_controller::manager::{framework_id, StateManager};
use torc_controller::message::{StateRequestMsg, StateResponseMsg};
use torc_controller::network_agent::{Agent, RouteOp};
use torc_controller::task::{Task, TaskState, Volume, SLA};

fn s(text: &str) -> String {
    text.to_string()
}

fn manager(name: &str, agent_type: &str) -> StateManager {
    let settings = Settings {
        name: s(name),
        ipmi_proxy: s("proxy:8080"),
        network_agent_type: s(agent_type),
        network_agent_connection: s("10.0.0.1:5909"),
    };
    StateManager::with_settings(s("10.0.0.1"), s("10.0.0.2"), settings, &s("u1"))
}

fn task(name: &str, id: &str, controller: &str, ip: &str, state: TaskState, last_update: i64) -> Task {
    Task {
        name: s(name),
        id: s(id),
        controller: s(controller),
        image: s("img"),
        node_name: s("n1"),
        node_type: s("slave"),
        node_function: s("none"),
        dependent_service: String::new(),
        arguments: String::new(),
        parameters: String::new(),
        memory: 1.0f64.to_bits(),
        cpu: 1.0f64.to_bits(),
        privileged: false,
        sla: SLA { preemptable: false },
        is_metered: false,
        is_system_service: false,
        is_job: false,
        volumes: vec![],
        network_type: String::new(),
        ip: s(ip),
        slave_id: String::new(),
        state,
        last_update,
    }
}

fn start(m: &mut StateManager, name: &str, system: bool, job: bool, now: i64) {
    m.start_task_at(
        &s(name),
        &s("image:1"),
        &s("n1"),
        &s("slave"),
        &s("none"),
        &s("dep"),
        &s("--flag"),
        &s("-p 80"),
        &2048.5f64.to_bits(),
        &0.25f64.to_bits(),
        &vec![Volume { host_path: s("/h"), container_path: s("/c"), read_only_mode: false }],
        &true,
        &SLA { preemptable: true },
        &true,
        &system,
        &job,
        &s("calico"),
        now,
    );
}

fn last_update(m: &StateManager, name: &str) -> i64 {
    m.state.task_list.get_task(&s(name)).unwrap().last_update
}

#[test]
fn getters_give_the_settings() {
    let m = manager("C1", "fboss");
    assert_eq!(m.get_master_ip(), "10.0.0.1");
    assert_eq!(m.get_my_name(), "C1");
    assert_eq!(m.get_my_ip(), "10.0.0.2");
    assert_eq!(m.get_ipmi_proxy(), "proxy:8080");
    assert_eq!(m.get_network_agent_type(), "fboss");
    assert_eq!(m.get_network_agent_connection(), "10.0.0.1:5909");
    assert_eq!(m.get_my_framework_id(), "C1-u1");
    assert_eq!(framework_id(&s("torc-controller"), &s("abc")), "torc-controller-abc");
}

#[test]
fn happy_path_placement() {
    let mut m = manager("C1", "fboss");
    m.add_node_at(s("n1"), s("10.0.1.1"), s("10.0.0.11"), s("10.0.2.1"), 3, s("slave"), 50);
    start(&mut m, "web", false, false, 100);
    assert_eq!(m.request_task_state(s("web")), TaskState::Requested);
    assert_eq!(m.request_task_ip(s("web")), "");
    m.send_update_task_info(s("web"), s("abc-123"), s("192.168.0.5"), s("s1"));
    let registration = m.send_update_task_state(s("web"), TaskState::Running).unwrap();
    assert_eq!(registration.address, "http://10.0.0.1:8500/v1/agent/service/register");
    assert_eq!(registration.body, "{\"Name\": \"web\",\"Address\": \"192.168.0.5\"}");
    assert_eq!(m.request_task_state(s("web")), TaskState::Running);
    assert_eq!(m.request_task_name_by_id(s("abc")), "web");
    assert_eq!(m.request_task_ip(s("web")), "192.168.0.5");
}

#[test]
fn started_task_is_requested_and_owned() {
    let mut m = manager("C1", "fboss");
    start(&mut m, "web", true, false, 100);
    let requested = m.request_list_requested_tasks();
    assert_eq!(requested.len(), 1);
    let t = &requested[0];
    assert_eq!(t.name, "web");
    assert_eq!(t.controller, "C1");
    assert_eq!(t.id, "");
    assert_eq!(t.ip, "");
    assert_eq!(t.slave_id, "");
    assert_eq!(t.image, "image:1");
    assert_eq!(t.node_name, "n1");
    assert_eq!(t.node_type, "slave");
    assert_eq!(t.node_function, "none");
    assert_eq!(t.dependent_service, "dep");
    assert_eq!(t.arguments, "--flag");
    assert_eq!(t.parameters, "-p 80");
    assert_eq!(f64::from_bits(t.memory), 2048.5);
    assert_eq!(f64::from_bits(t.cpu), 0.25);
    assert_eq!(t.volumes.len(), 1);
    assert_eq!(t.volumes[0].host_path, "/h");
    assert!(t.privileged);
    assert!(t.sla.preemptable);
    assert!(t.is_metered);
    assert!(t.is_system_service);
    assert!(!t.is_job);
    assert_eq!(t.network_type, "calico");
    assert_eq!(t.state, TaskState::Requested);
    assert_eq!(t.last_update, 100);
}

#[test]
fn only_running_calls_for_a_registration() {
    let mut m = manager("C1", "fboss");
    start(&mut m, "web", false, false, 100);
    assert!(m.send_update_task_state(s("web"), TaskState::Accepted).is_none());
    assert!(m.send_update_task_state(s("web"), TaskState::Restart).is_none());
    assert!(m.send_update_task_state(s("web"), TaskState::NotRunning).is_none());
    assert!(m.send_update_task_state(s("web"), TaskState::Requested).is_none());
    assert!(m.send_update_task_state(s("ghost"), TaskState::Running).is_none());
    assert_eq!(m.request_task_state(s("ghost")), TaskState::NotRunning);
    assert!(m.send_update_task_state(s("web"), TaskState::Running).is_some());
}

#[test]
fn foreign_announce_installs_route() {
    let mut m = manager("C1", "fboss");
    m.add_node_at(s("n1"), s("10.0.1.1"), s("10.0.0.11"), s("10.0.2.1"), 3, s("slave"), 50);
    let routes = m.announce_task_at(&task("api", "z-1", "C2", "192.168.0.7", TaskState::Running, 60), 70);
    assert_eq!(routes.len(), 1);
    assert_eq!(routes[0].agent, Agent::Fboss);
    assert_eq!(routes[0].op, RouteOp::AddRoute);
    assert_eq!(routes[0].connection, "10.0.0.1:5909");
    assert_eq!(routes[0].route_to, "192.168.0.7/32");
    assert_eq!(routes[0].route_via, "10.0.0.11");
    let running = m.request_list_running_tasks();
    assert_eq!(running.len(), 1);
    assert_eq!(running[0].name, "api");
    assert_eq!(running[0].controller, "C2");
    assert_eq!(running[0].last_update, 60);
}

#[test]
fn announce_on_unknown_node_installs_nothing() {
    let mut m = manager("C1", "fboss");
    let routes = m.announce_task_at(&task("api", "z-1", "C2", "192.168.0.7", TaskState::Running, 60), 70);
    assert!(routes.is_empty());
    assert_eq!(m.request_task_state(s("api")), TaskState::Running);
}

#[test]
fn announce_under_a_known_name_removes_the_old_route() {
    let mut m = manager("C1", "snaproute");
    m.add_node_at(s("n1"), s("10.0.1.1"), s("10.0.0.11"), s("10.0.2.1"), 3, s("slave"), 50);
    m.start_task(task("api", "z-1", "C2", "192.168.0.7", TaskState::Running, 60));
    let routes = m.announce_task_at(&task("api", "y-2", "C2", "192.168.0.9", TaskState::Running, 80), 90);
    assert_eq!(routes.len(), 2);
    assert_eq!(routes[0].op, RouteOp::AddRoute);
    assert_eq!(routes[0].route_to, "192.168.0.9/32");
    assert_eq!(routes[0].agent, Agent::Snaproute);
    assert_eq!(routes[1].op, RouteOp::DeleteRoute);
    assert_eq!(routes[1].route_to, "192.168.0.7/32");
    assert_eq!(m.request_task_ip(s("api")), "192.168.0.9");
    assert_eq!(m.request_list_running_tasks().len(), 1);
}

#[test]
fn reannounce_is_a_heartbeat() {
    let mut m = manager("C1", "fboss");
    m.add_node_at(s("n1"), s("10.0.1.1"), s("10.0.0.11"), s("10.0.2.1"), 3, s("slave"), 50);
    let api = task("api", "z-1", "C2", "192.168.0.7", TaskState::Running, 1000);
    m.start_task(api.snapshot());
    let mut again = api.snapshot();
    again.ip = s("192.168.0.99");
    again.state = TaskState::Accepted;
    let routes = m.announce_task_at(&again, 2000);
    assert!(routes.is_empty());
    assert_eq!(last_update(&m, "api"), 2000);
    assert_eq!(m.request_task_ip(s("api")), "192.168.0.7");
    assert_eq!(m.request_task_state(s("api")), TaskState::Running);
    assert_eq!(m.request_task_name_by_id(s("z-1")), "api");
    assert_eq!(m.request_list_running_tasks().len(), 1);
}

#[test]
fn announce_without_an_id_is_never_a_heartbeat() {
    let mut m = manager("C1", "fboss");
    m.start_task(task("api", "", "C2", "192.168.0.7", TaskState::Running, 1000));
    let routes = m.announce_task_at(&task("api", "", "C2", "192.168.0.7", TaskState::Running, 1500), 2000);
    assert_eq!(routes.len(), 1);
    assert_eq!(routes[0].op, RouteOp::DeleteRoute);
    assert_eq!(last_update(&m, "api"), 1500);
}

#[test]
fn foreign_expiry() {
    let mut m = manager("C1", "fboss");
    m.start_task(task("api", "z-1", "C2", "192.168.0.7", TaskState::Running, 1000));
    let routes = m.clean_tick_at(30, 10, 1000 + 30 + 1);
    assert_eq!(routes.len(), 1);
    assert_eq!(routes[0].agent, Agent::Fboss);
    assert_eq!(routes[0].op, RouteOp::DeleteRoute);
    assert_eq!(routes[0].connection, "10.0.0.1:5909");
    assert_eq!(routes[0].route_to, "192.168.0.7/32");
    assert_eq!(m.request_task_state(s("api")), TaskState::NotRunning);
    assert!(m.request_list_running_tasks().is_empty());
    assert_eq!(m.state.task_list.len(), 0);
}

#[test]
fn clean_tick_spares_own_and_fresh_tasks() {
    let mut m = manager("C1", "fboss");
    m.start_task(task("own", "a", "C1", "192.168.0.1", TaskState::Running, 0));
    m.start_task(task("fresh", "b", "C2", "192.168.0.2", TaskState::Running, 1000));
    m.start_task(task("idle", "c", "C2", "192.168.0.3", TaskState::Accepted, 0));
    m.start_task(task("noip", "d", "C2", "", TaskState::Running, 0));
    let routes = m.clean_tick_at(30, 10, 1030);
    assert!(routes.is_empty());
    assert_eq!(m.state.task_list.len(), 3);
    assert_eq!(m.request_task_state(s("own")), TaskState::Running);
    assert_eq!(m.request_task_state(s("fresh")), TaskState::Running);
    assert_eq!(m.request_task_state(s("idle")), TaskState::Accepted);
    assert_eq!(m.request_task_state(s("noip")), TaskState::NotRunning);
}

#[test]
fn restart_promotion() {
    let mut m = manager("C1", "fboss");
    start(&mut m, "db", true, false, 500);
    m.restart_task_at(s("db"), 1000);
    assert_eq!(m.request_task_state(s("db")), TaskState::Restart);
    assert_eq!(last_update(&m, "db"), 1000);
    assert_eq!(m.request_list_restart_tasks().len(), 1);
    m.clean_tick_at(30, 10, 1010);
    assert_eq!(m.request_task_state(s("db")), TaskState::Restart);
    m.clean_tick_at(30, 10, 1000 + 10 + 1);
    assert_eq!(m.request_task_state(s("db")), TaskState::Requested);
    assert_eq!(m.request_list_requested_tasks().len(), 1);
}

#[test]
fn node_liveness() {
    let mut m = manager("C1", "fboss");
    m.add_node_at(s("n1"), s("10.0.1.1"), s("10.0.0.11"), s("10.0.2.1"), 3, s("slave"), 50);
    assert!(!m.request_is_node_active(s("n1")));
    m.update_node_at(s("n1"), s("slave"), s("compute"), s("s-1"), 1000);
    assert!(m.request_is_node_active(s("n1")));
    m.clean_tick_at(30, 10, 1030);
    assert!(m.request_is_node_active(s("n1")));
    m.clean_tick_at(30, 10, 1000 + 30 + 1);
    assert!(!m.request_is_node_active(s("n1")));
    let n1 = m.request_node(s("n1")).unwrap();
    assert_eq!(n1.node_function, "compute");
    assert_eq!(n1.slave_id, "s-1");
    assert_eq!(n1.last_seen, 1000);
    assert_eq!(m.request_list_nodes().len(), 1);
}

#[test]
fn configured_node_starts_inactive() {
    let mut m = manager("C1", "fboss");
    m.add_node_at(s("n1"), s("10.0.1.1"), s("10.0.0.11"), s("10.0.2.1"), 3, s("slave"), 50);
    let n1 = m.request_node(s("n1")).unwrap();
    assert_eq!(n1.name, "n1");
    assert_eq!(n1.ip, "10.0.1.1");
    assert_eq!(n1.external_ip, "10.0.0.11");
    assert_eq!(n1.management_ip, "10.0.2.1");
    assert_eq!(n1.port_id, 3);
    assert_eq!(n1.node_type, "slave");
    assert_eq!(n1.node_function, "none");
    assert_eq!(n1.slave_id, "");
    assert!(!n1.active);
    assert_eq!(n1.last_seen, 50);
    m.send_set_node_inactive(s("n1"));
    assert!(!m.request_is_node_active(s("n1")));
}

#[test]
fn unknown_node_is_not_found() {
    let mut m = manager("C1", "fboss");
    assert!(m.request_node(s("nope")).is_none());
    assert!(!m.request_is_node_active(s("nope")));
    let (reply, registration) = m.ask(StateRequestMsg::GetNode { node_name: s("nope") }, 0);
    assert!(matches!(reply, StateResponseMsg::NodeNotFound));
    assert!(registration.is_none());
}

#[test]
fn ping_is_answered_with_pong() {
    let mut m = manager("C1", "fboss");
    m.send_ping();
    let (reply, registration) = m.state.serve(StateRequestMsg::Ping, 0);
    assert!(matches!(reply, StateResponseMsg::Pong));
    assert!(registration.is_none());
}

#[test]
fn requests_are_served_in_order() {
    let mut m = manager("C1", "fboss");
    let requests = vec![
        StateRequestMsg::StartTask { task: task("a", "", "C1", "", TaskState::Requested, 1) },
        StateRequestMsg::UpdateTaskInfo { task_name: s("a"), id: s("i"), ip: s("9.9.9.9"), slave_id: s("s") },
        StateRequestMsg::UpdateTaskNodeName { task_name: s("a"), node_name: s("n7") },
        StateRequestMsg::UpdateTaskState { task_name: s("a"), task_state: TaskState::Running },
        StateRequestMsg::UpdateTaskLastUpdate { task_name: s("a") },
        StateRequestMsg::RestartTask { task_name: s("a") },
    ];
    let mut registrations = 0;
    for request in requests {
        let (_, registration) = m.state.serve(request, 42);
        if let Some(r) = registration {
            assert_eq!(r.body, "{\"Name\": \"a\",\"Address\": \"9.9.9.9\"}");
            registrations += 1;
        }
    }
    assert_eq!(registrations, 1);
    let (reply, _) = m.state.serve(StateRequestMsg::GetTaskState { task_name: s("a") }, 0);
    assert!(matches!(reply, StateResponseMsg::TaskState { task_state: TaskState::Restart }));
    let (reply, _) = m.state.serve(StateRequestMsg::GetTaskIP { task_name: s("a") }, 0);
    match reply {
        StateResponseMsg::TaskIP { task_ip } => assert_eq!(task_ip, "9.9.9.9"),
        _ => panic!("wrong reply"),
    }
    let a = m.state.task_list.get_task(&s("a")).unwrap();
    assert_eq!(a.node_name, "n7");
    assert_eq!(a.last_update, 42);
    let (reply, _) = m.state.serve(StateRequestMsg::RemoveTask { task_name: s("a") }, 0);
    assert!(matches!(reply, StateResponseMsg::RemoveTask));
    assert_eq!(m.state.task_list.len(), 0);
}

#[test]
fn restartable_is_an_own_system_service_that_is_no_job() {
    let mut m = manager("C1", "fboss");
    start(&mut m, "svc", true, false, 1);
    start(&mut m, "job", true, true, 1);
    start(&mut m, "plain", false, false, 1);
    let mut foreign = task("theirs", "", "C2", "", TaskState::Running, 1);
    foreign.is_system_service = true;
    m.start_task(foreign);
    assert!(m.request_is_restartable_task(s("svc")));
    assert!(!m.request_is_restartable_task(s("job")));
    assert!(!m.request_is_restartable_task(s("plain")));
    assert!(!m.request_is_restartable_task(s("theirs")));
    assert!(!m.request_is_restartable_task(s("nope")));
}

#[test]
fn remove_and_update_node_name_through_the_manager() {
    let mut m = manager("C1", "fboss");
    start(&mut m, "web", false, false, 1);
    m.send_update_task_node_name(s("web"), s("n4"));
    assert_eq!(m.state.task_list.get_task(&s("web")).unwrap().node_name, "n4");
    m.send_remove_task_by_name(s("web"));
    assert_eq!(m.request_task_state(s("web")), TaskState::NotRunning);
    assert!(m.request_list_requested_tasks().is_empty());
}

#[test]
fn sync_tick_registers_all_running_and_announces_own() {
    let mut m = manager("C1", "fboss");
    m.start_task(task("own", "o-1", "C1", "192.168.0.1", TaskState::Running, 100));
    m.start_task(task("theirs", "t-1", "C2", "192.168.0.2", TaskState::Running, 100));
    m.start_task(task("waiting", "w-1", "C1", "192.168.0.3", TaskState::Requested, 100));
    let (registrations, routes) = m.sync_tick_at(500);
    assert_eq!(registrations.len(), 2);
    assert_eq!(registrations[0].address, "http://10.0.0.1:8500/v1/agent/service/register");
    assert_eq!(registrations[0].body, "{\"Name\": \"own\",\"Address\": \"192.168.0.1\"}");
    assert_eq!(registrations[1].body, "{\"Name\": \"theirs\",\"Address\": \"192.168.0.2\"}");
    assert!(routes.is_empty());
    assert_eq!(last_update(&m, "own"), 500);
    assert_eq!(last_update(&m, "theirs"), 100);
    assert_eq!(last_update(&m, "waiting"), 100);
}

#[test]
fn the_clock_stamps_restarts_and_ticks() {
    let mut m = manager("C1", "fboss");
    start(&mut m, "db", true, false, 0);
    m.send_restart_task(s("db"));
    assert_eq!(m.request_task_state(s("db")), TaskState::Restart);
    assert!(last_update(&m, "db") > 1_500_000_000);
    m.send_add_node(s("n1"), s("a"), s("b"), s("c"), 1, s("slave"));
    assert!(m.request_node(s("n1")).unwrap().last_seen > 1_500_000_000);
    m.send_update_node(s("n1"), s("slave"), s("f"), s("s"));
    assert!(m.request_is_node_active(s("n1")));
    m.start_task(task("api", "z", "C2", "192.168.0.7", TaskState::Running, 1000));
    let routes = m.clean_tick(30, 10);
    assert_eq!(routes.len(), 1);
    assert!(m.request_is_node_active(s("n1")));
    m.send_start_task(
        &s("late"),
        &s("i"),
        &s("n"),
        &s("t"),
        &s("f"),
        &s("d"),
        &s("a"),
        &s("p"),
        &0,
        &0,
        &vec![],
        &false,
        &SLA { preemptable: false },
        &false,
        &false,
        &false,
        &s("net"),
    );
    assert!(last_update(&m, "late") > 1_500_000_000);
    let routes = m.send_announce_task(&task("own", "o-1", "C1", "", TaskState::Running, 5));
    assert!(routes.is_empty());
    let (registrations, _) = m.sync_tick();
    assert_eq!(registrations.len(), 1);
    assert!(last_update(&m, "own") > 1_500_000_000);
}

#[test]
fn heartbeat_goes_to_the_holder_of_the_id() {
    let mut m = manager("C1", "fboss");
    m.add_node_at(s("n1"), s("10.0.1.1"), s("10.0.0.11"), s("10.0.2.1"), 3, s("slave"), 50);
    m.start_task(task("a", "X", "C2", "192.168.0.7", TaskState::Running, 1000));
    let routes = m.announce_task_at(&task("b", "X", "C2", "192.168.0.8", TaskState::Running, 1500), 2000);
    assert!(routes.is_empty());
    assert_eq!(last_update(&m, "a"), 2000);
    assert_eq!(m.state.task_list.len(), 1);
    assert!(m.state.task_list.get_task(&s("b")).is_err());
    let a = m.state.task_list.get_task(&s("a")).unwrap();
    assert_eq!(a.ip, "192.168.0.7");
    assert_eq!(a.id, "X");
    assert_eq!(a.state, TaskState::Running);
}

#[test]
fn an_id_that_only_begins_alike_is_no_heartbeat() {
    let mut m = manager("C1", "fboss");
    m.start_task(task("long", "z-10", "C2", "192.168.0.7", TaskState::Running, 1000));
    let routes = m.announce_task_at(&task("short", "z-1", "C2", "192.168.0.8", TaskState::Running, 1500), 2000);
    assert!(routes.is_empty());
    assert_eq!(m.state.task_list.len(), 2);
    assert_eq!(last_update(&m, "long"), 1000);
    assert_eq!(last_update(&m, "short"), 1500);
    assert_eq!(m.request_task_name_by_id(s("z-1")), "long");
    assert_eq!(m.request_task_name_with_id(s("z-1")), Some(s("short")));
    assert_eq!(m.request_task_name_with_id(s("z-10")), Some(s("long")));
    assert_eq!(m.request_task_name_with_id(s("z-")), None);
    assert_eq!(m.request_task_name_with_id(s("")), None);
}

#[test]
fn heartbeat_reaches_a_holder_without_a_name() {
    let mut m = manager("C1", "fboss");
    m.start_task(task("", "X", "C2", "192.168.0.7", TaskState::Running, 1000));
    let routes = m.announce_task_at(&task("b", "X", "C2", "192.168.0.8", TaskState::Running, 1500), 2000);
    assert!(routes.is_empty());
    assert_eq!(m.state.task_list.len(), 1);
    assert_eq!(last_update(&m, ""), 2000);
}

#[test]
fn expired_task_without_ip_or_agent_sends_no_removal() {
    let mut m = manager("C1", "fboss");
    m.start_task(task("noip", "a", "C2", "", TaskState::Running, 0));
    m.start_task(task("one", "b", "C2", "192.168.0.1", TaskState::Running, 0));
    m.start_task(task("two", "c", "C2", "192.168.0.2", TaskState::Running, 0));
    let routes = m.clean_tick_at(30, 10, 31);
    assert_eq!(routes.len(), 2);
    assert_eq!(routes[0].route_to, "192.168.0.1/32");
    assert_eq!(routes[1].route_to, "192.168.0.2/32");
    assert_eq!(m.state.task_list.len(), 0);
    let mut m = manager("C1", "undefined");
    m.start_task(task("one", "b", "C2", "192.168.0.1", TaskState::Running, 0));
    assert!(m.clean_tick_at(30, 10, 31).is_empty());
    assert_eq!(m.state.task_list.len(), 0);
}
