use torc_controller::api::{metered_tasks, query_value, service_tasks, ServiceGroup};
use torc_controller::config::Settings;
use torc_controller::manager::StateManager;
use torc_controller::task::{Task, TaskState, SLA};

fn s(text: &str) -> String {
    text.to_string()
}

fn task(name: &str, state: TaskState, metered: bool, job: bool) -> Task {
    Task {
        name: s(name),
        id: format!("id-{}", name),
        controller: s("C9"),
        image: s("img"),
        node_name: s("n1"),
        node_type: String::new(),
        node_function: String::new(),
        dependent_service: String::new(),
        arguments: String::new(),
        parameters: String::new(),
        memory: 64.0f64.to_bits(),
        cpu: 2.0f64.to_bits(),
        privileged: true,
        sla: SLA { preemptable: true },
        is_metered: metered,
        is_system_service: true,
        is_job: job,
        volumes: vec![],
        network_type: s("calico"),
        ip: s("192.168.1.1"),
        slave_id: s("s"),
        state,
        last_update: 7,
    }
}

fn manager() -> StateManager {
    let settings = Settings {
        name: s("C1"),
        ipmi_proxy: s("proxy:8080"),
        network_agent_type: s("fboss"),
        network_agent_connection: s("conn"),
    };
    StateManager::with_settings(s("10.0.0.1"), s("10.0.0.2"), settings, &s("u"))
}

fn names(tasks: &Vec<Task>) -> Vec<String> {
    tasks.iter().map(|t| t.name.clone()).collect()
}

#[test]
fn query_value_is_what_follows_the_key() {
    assert_eq!(query_value("name=web", "name="), Some(s("web")));
    assert_eq!(query_value("id=abc-123", "id="), Some(s("abc-123")));
    assert_eq!(query_value("name=a=b&c", "name="), Some(s("a=b&c")));
    assert_eq!(query_value("name=\u{e9}t\u{e9}", "name="), Some(s("\u{e9}t\u{e9}")));
}

#[test]
fn query_without_key_or_value_gives_nothing() {
    assert_eq!(query_value("", "name="), None);
    assert_eq!(query_value("name=", "name="), None);
    assert_eq!(query_value("name", "name="), None);
    assert_eq!(query_value("id=web", "name="), None);
    assert_eq!(query_value("xname=web", "name="), None);
}

#[test]
fn listings_filter_in_order() {
    let tasks = vec![
        task("a", TaskState::Running, true, false),
        task("b", TaskState::Running, false, true),
        task("c", TaskState::Running, true, true),
        task("d", TaskState::Running, false, false),
    ];
    assert_eq!(names(&metered_tasks(&tasks)), vec![s("a"), s("c")]);
    assert_eq!(names(&service_tasks(&tasks)), vec![s("a"), s("d")]);
    assert!(metered_tasks(&vec![]).is_empty());
    assert!(service_tasks(&vec![]).is_empty());
}

#[test]
fn listings_show_running_tasks_only() {
    let mut m = manager();
    m.start_task(task("run", TaskState::Running, true, false));
    m.start_task(task("wait", TaskState::Requested, true, false));
    m.start_task(task("job", TaskState::Running, true, true));
    m.start_task(task("free", TaskState::Running, false, false));
    assert_eq!(names(&m.services_metered()), vec![s("run"), s("job")]);
    assert_eq!(names(&m.services_running()), vec![s("run"), s("free")]);
}

#[test]
fn service_name_by_id_query() {
    let mut m = manager();
    m.start_task(task("web", TaskState::Running, false, false));
    assert_eq!(m.service_name("id=id-w"), "web");
    assert_eq!(m.service_name("id=id-web"), "web");
    assert_eq!(m.service_name("id=nope"), "");
    assert_eq!(m.service_name("id="), "");
    assert_eq!(m.service_name("name=web"), "");
    assert_eq!(m.service_name(""), "");
}

#[test]
fn power_request_names_the_management_ip() {
    let mut m = manager();
    m.add_node_at(s("n1"), s("10.0.1.1"), s("10.0.0.11"), s("10.0.2.1"), 3, s("slave"), 50);
    let request = m.power_request("name=n1").unwrap();
    assert_eq!(request.proxy, "proxy:8080");
    assert_eq!(request.management_ip, "10.0.2.1");
    assert!(m.power_request("name=n2").is_none());
    assert!(m.power_request("name=").is_none());
    assert!(m.power_request("n1").is_none());
}

#[test]
fn group_services_start_as_own_requested_tasks() {
    let mut m = manager();
    let group = vec![
        task("a", TaskState::Running, true, false),
        task("b", TaskState::Accepted, false, true),
    ];
    m.start_service_group_at(&group, 900);
    let requested = m.request_list_requested_tasks();
    assert_eq!(names(&requested), vec![s("a"), s("b")]);
    for t in &requested {
        assert_eq!(t.controller, "C1");
        assert_eq!(t.id, "");
        assert_eq!(t.ip, "");
        assert_eq!(t.slave_id, "");
        assert!(!t.is_system_service);
        assert_eq!(t.state, TaskState::Requested);
        assert_eq!(t.last_update, 900);
        assert_eq!(t.image, "img");
        assert_eq!(f64::from_bits(t.memory), 64.0);
        assert!(t.privileged);
    }
    assert!(requested[0].is_metered);
    assert!(requested[1].is_job);
    m.start_service_group(&group);
    assert_eq!(m.request_list_requested_tasks().len(), 2);
    assert!(m.request_list_requested_tasks()[0].last_update > 1_500_000_000);
}

#[test]
fn named_groups_start_their_services_in_order() {
    let groups = vec![
        ServiceGroup { name: s("web"), services: vec![task("a", TaskState::Running, false, false)] },
        ServiceGroup { name: s("db"), services: vec![task("x", TaskState::Running, false, false)] },
        ServiceGroup {
            name: s("web"),
            services: vec![
                task("b", TaskState::Running, true, false),
                task("a", TaskState::Running, true, false),
            ],
        },
    ];
    let mut m = manager();
    m.start_named_groups_at(&groups, "name=web", 700);
    let requested = m.request_list_requested_tasks();
    assert_eq!(names(&requested), vec![s("a"), s("b")]);
    assert!(requested[0].is_metered);
    assert_eq!(requested[0].last_update, 700);
    assert_eq!(requested[0].controller, "C1");
    assert!(!requested[0].is_system_service);

    let mut m = manager();
    m.start_named_groups_at(&groups, "name=none", 700);
    m.start_named_groups_at(&groups, "name=", 700);
    m.start_named_groups_at(&groups, "group=web", 700);
    m.start_named_groups_at(&groups, "", 700);
    assert!(m.request_list_requested_tasks().is_empty());
    m.start_named_groups(&groups, "name=db");
    let requested = m.request_list_requested_tasks();
    assert_eq!(names(&requested), vec![s("x")]);
    assert!(requested[0].last_update > 1_500_000_000);
}
