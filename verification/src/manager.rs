//! The state manager: the controller's settings together with the state
//! it is custodian of. Every operation is one request to the custodian
//! and the reply to it, so operations take effect one at a time and in
//! the order in which they are made.

use vstd::prelude::*;
use vstd::string::StringExecFns;
use crate::clock::utc_now;
use crate::config::{
    configs_view, configured_nodes, read_nodes, settings_of, text_under, ConfigError, NodeConfig,
    NodeConfigView, Settings, SettingsView,
};
use crate::consul::ServiceRegistration;
use crate::network_agent::{command_view, reset_fib, reset_fib_plan, RouteCommand};
use crate::message::{RequestView, StateRequestMsg, StateResponseMsg};
use crate::node::{Node, NodeView};
use crate::node_list;
use crate::node_list::nodes_view;
use crate::state::{
    next_state, registration_due, registration_view, restartable, task_ip, task_state, State,
    StateView,
};
use crate::task::{Task, TaskState, TaskView, Volume, volumes_view, VolumeView, SLA, snapshot_volumes};
use crate::task_list;
use crate::task_list::tasks_view;

verus! {

/// The state manager.
pub struct StateManager {
    pub state: State,
    pub my_ip: String,
    pub my_framework_id: String,
    pub ipmi_proxy: String,
    pub network_agent_type: String,
    pub network_agent_connection: String,
}

/// Mathematical value of a [`StateManager`].
pub struct ManagerView {
    pub state: StateView,
    pub my_ip: Seq<char>,
    pub my_framework_id: Seq<char>,
    pub ipmi_proxy: Seq<char>,
    pub network_agent_type: Seq<char>,
    pub network_agent_connection: Seq<char>,
}

impl View for StateManager {
    type V = ManagerView;

    open spec fn view(&self) -> ManagerView {
        ManagerView {
            state: self.state@,
            my_ip: self.my_ip@,
            my_framework_id: self.my_framework_id@,
            ipmi_proxy: self.ipmi_proxy@,
            network_agent_type: self.network_agent_type@,
            network_agent_connection: self.network_agent_connection@,
        }
    }
}

/// The manager after its custodian served `request` at the time `now`.
pub open spec fn after(m: ManagerView, request: RequestView, now: i64) -> ManagerView {
    ManagerView { state: next_state(m.state, request, now), ..m }
}

/// The settings that the YAML document `config` gives.
pub open spec fn config_settings(config: yaml_rust::Yaml, master_ip: Seq<char>) -> SettingsView {
    settings_of(
        text_under(config, seq!["name"@]),
        text_under(config, seq!["ipmiproxy"@]),
        text_under(config, seq!["network-agent"@, "type"@]),
        text_under(config, seq!["network-agent"@, "connection"@]),
        master_ip,
    )
}

/// The task that a request to start a service makes: owned by the
/// controller `my_name`, in state `Requested`, not yet placed, stamped
/// `now`.
pub open spec fn requested_task(
    my_name: Seq<char>,
    name: Seq<char>,
    image: Seq<char>,
    node_name: Seq<char>,
    node_type: Seq<char>,
    node_function: Seq<char>,
    dependent_service: Seq<char>,
    arguments: Seq<char>,
    parameters: Seq<char>,
    memory: u64,
    cpu: u64,
    volumes: Seq<VolumeView>,
    privileged: bool,
    sla: SLA,
    is_metered: bool,
    is_system_service: bool,
    is_job: bool,
    network_type: Seq<char>,
    now: i64,
) -> TaskView {
    TaskView {
        name: name,
        id: Seq::empty(),
        controller: my_name,
        image: image,
        node_name: node_name,
        node_type: node_type,
        node_function: node_function,
        dependent_service: dependent_service,
        arguments: arguments,
        parameters: parameters,
        memory: memory,
        cpu: cpu,
        privileged: privileged,
        sla: sla,
        is_metered: is_metered,
        is_system_service: is_system_service,
        is_job: is_job,
        volumes: volumes,
        network_type: network_type,
        ip: Seq::empty(),
        slave_id: Seq::empty(),
        state: TaskState::Requested,
        last_update: now,
    }
}

/// The node that the configuration makes known: inactive, with the
/// function `none` and no slave id, stamped `now`.
pub open spec fn configured_node(
    name: Seq<char>,
    ip: Seq<char>,
    external_ip: Seq<char>,
    management_ip: Seq<char>,
    port_id: i64,
    node_type: Seq<char>,
    now: i64,
) -> NodeView {
    NodeView {
        name: name,
        ip: ip,
        external_ip: external_ip,
        management_ip: management_ip,
        node_type: node_type,
        node_function: "none"@,
        active: false,
        slave_id: Seq::empty(),
        port_id: port_id,
        last_seen: now,
    }
}

/// A text that no other call gives again.
///
/// Rests on `uuid::Uuid::new_v4`, written in the crate's simple form.
/// Nothing is claimed of the value: it is drawn at random. The call
/// panics where the system gives no random bytes.
#[verifier::external_body]
pub(crate) fn fresh_uuid() -> (r: String) {
    uuid::Uuid::new_v4().simple().to_string()
}

/// The framework id of the controller `my_name` that was given the
/// unique text `unique`.
pub open spec fn framework_id_of(my_name: Seq<char>, unique: Seq<char>) -> Seq<char> {
    my_name + "-"@ + unique
}

/// The framework id of the controller `my_name` that was given the
/// unique text `unique`.
pub fn framework_id(my_name: &String, unique: &String) -> (r: String)
    ensures
        r@ == framework_id_of(my_name@, unique@),
{
    my_name.clone().concat("-").concat(unique.as_str())
}

/// The manager of a controller that has just started with `settings`:
/// both tables are empty.
pub open spec fn started(
    master_ip: Seq<char>,
    my_ip: Seq<char>,
    settings: SettingsView,
    unique: Seq<char>,
) -> ManagerView {
    ManagerView {
        state: StateView {
            master_ip: master_ip,
            my_name: settings.name,
            tasks: Seq::empty(),
            nodes: Seq::empty(),
        },
        my_ip: my_ip,
        my_framework_id: framework_id_of(settings.name, unique),
        ipmi_proxy: settings.ipmi_proxy,
        network_agent_type: settings.network_agent_type,
        network_agent_connection: settings.network_agent_connection,
    }
}

/// The node table after the nodes of `configs` were made known one after
/// the other, all stamped `now`.
pub open spec fn loaded(nodes: Seq<NodeView>, configs: Seq<NodeConfigView>, now: i64) -> Seq<
    NodeView,
>
    decreases configs.len(),
{
    if configs.len() == 0 {
        nodes
    } else {
        node_list::inserted(
            loaded(nodes, configs.drop_last(), now),
            configured_node(
                configs.last().name,
                configs.last().ip,
                configs.last().external_ip,
                configs.last().management_ip,
                configs.last().port,
                configs.last().node_type,
                now,
            ),
        )
    }
}

/// The manager `m` after the nodes of `configs` were made known to it,
/// all stamped `now`.
pub open spec fn configured(m: ManagerView, configs: Seq<NodeConfigView>, now: i64) -> ManagerView {
    ManagerView {
        state: StateView { nodes: loaded(m.state.nodes, configs, now), ..m.state },
        ..m
    }
}

impl StateManager {
    /// The manager of a controller that starts with `settings` and was
    /// given the unique text `unique`.
    pub fn with_settings(master_ip: String, my_ip: String, settings: Settings, unique: &String) -> (r:
        StateManager)
        ensures
            r.wf(),
            r@ == started(master_ip@, my_ip@, settings@, unique@),
    {
        let my_framework_id = framework_id(&settings.name, unique);
        StateManager {
            state: State::new(master_ip, settings.name),
            my_ip: my_ip,
            my_framework_id: my_framework_id,
            ipmi_proxy: settings.ipmi_proxy,
            network_agent_type: settings.network_agent_type,
            network_agent_connection: settings.network_agent_connection,
        }
    }

    /// Makes the nodes of the configuration known, in order, all stamped
    /// `now`.
    pub fn load_node_list_at(&mut self, nodes: &Vec<NodeConfig>, now: i64)
        requires
            old(self).wf(),
        ensures
            final(self).wf(),
            final(self)@.state.nodes == loaded(old(self)@.state.nodes, configs_view(nodes@), now),
            final(self)@ == (ManagerView {
                state: StateView { nodes: final(self)@.state.nodes, ..old(self)@.state },
                ..old(self)@
            }),
    {
        let ghost all = configs_view(nodes@);
        let mut i: usize = 0;
        proof {
            assert(all.take(0) =~= Seq::<NodeConfigView>::empty());
        }
        while i < nodes.len()
            invariant
                i <= nodes@.len(),
                self.wf(),
                all == configs_view(nodes@),
                self@.state.nodes == loaded(old(self)@.state.nodes, all.take(i as int), now),
                self@ == (ManagerView {
                    state: StateView { nodes: self@.state.nodes, ..old(self)@.state },
                    ..old(self)@
                }),
            decreases nodes@.len() - i,
        {
            proof {
                assert(all.take(i + 1).drop_last() =~= all.take(i as int));
                assert(all.take(i + 1).last() == nodes@[i as int]@);
            }
            self.add_node_at(
                nodes[i].name.clone(),
                nodes[i].ip.clone(),
                nodes[i].external_ip.clone(),
                nodes[i].management_ip.clone(),
                nodes[i].port,
                nodes[i].node_type.clone(),
                now,
            );
            i += 1;
        }
        proof {
            assert(all.take(nodes@.len() as int) =~= all);
        }
    }

    /// Makes the nodes of the configuration known, in order, all stamped
    /// with the current time.
    pub fn load_node_list(&mut self, nodes: &Vec<NodeConfig>)
        requires
            old(self).wf(),
        ensures
            final(self).wf(),
            exists|now: i64|
                final(self)@.state.nodes == #[trigger] loaded(
                    old(self)@.state.nodes,
                    configs_view(nodes@),
                    now,
                ),
            final(self)@ == (ManagerView {
                state: StateView { nodes: final(self)@.state.nodes, ..old(self)@.state },
                ..old(self)@
            }),
    {
        let now = utc_now();
        self.load_node_list_at(nodes, now);
    }

    /// The manager of a controller that starts with the configuration
    /// `config`: its settings are those of the configuration, its task
    /// table is empty, and its node table holds the nodes that the
    /// configuration lists, made known in the order of the list. Fails
    /// exactly where the configuration lists no nodes.
    pub fn new(master_ip: String, my_ip: String, config: &yaml_rust::Yaml) -> (r: Result<
        StateManager,
        ConfigError,
    >)
        ensures
            r.is_ok() == configured_nodes(*config, master_ip@).is_some(),
            match r {
                Ok(m) => m.wf() && exists|unique: Seq<char>, now: i64|
                    m@ == #[trigger] configured(
                        started(master_ip@, my_ip@, config_settings(*config, master_ip@), unique),
                        configured_nodes(*config, master_ip@).unwrap(),
                        now,
                    ),
                Err(e) => e == ConfigError::NoNodes,
            },
    {
        match read_nodes(config, &master_ip) {
            Some(nodes) => {
                let settings = Settings::from_yaml(config, &master_ip);
                let unique = fresh_uuid();
                let mut manager = StateManager::with_settings(master_ip, my_ip, settings, &unique);
                let now = utc_now();
                manager.load_node_list_at(&nodes, now);
                assert(manager@ == configured(
                    started(master_ip@, my_ip@, config_settings(*config, master_ip@), unique@),
                    configured_nodes(*config, master_ip@).unwrap(),
                    now,
                ));
                Ok(manager)
            },
            None => Err(ConfigError::NoNodes),
        }
    }

    /// Starts a controller up from the configuration `config`: gives the
    /// manager as `new` makes it, with the configured nodes loaded, and
    /// with it the one command that clears the forwarding table of the
    /// configured agent. The command is made after the nodes are loaded;
    /// it is to be sent once the manager serves and both ticks run.
    pub fn start_up(master_ip: String, my_ip: String, config: &yaml_rust::Yaml) -> (r: Result<
        (StateManager, Option<RouteCommand>),
        ConfigError,
    >)
        ensures
            r.is_ok() == configured_nodes(*config, master_ip@).is_some(),
            match r {
                Ok(up) => up.0.wf() && (exists|unique: Seq<char>, now: i64|
                    up.0@ == #[trigger] configured(
                        started(master_ip@, my_ip@, config_settings(*config, master_ip@), unique),
                        configured_nodes(*config, master_ip@).unwrap(),
                        now,
                    )) && command_view(up.1) == reset_fib_plan(
                    config_settings(*config, master_ip@).network_agent_type,
                    config_settings(*config, master_ip@).network_agent_connection,
                ),
                Err(e) => e == ConfigError::NoNodes,
            },
    {
        match StateManager::new(master_ip, my_ip, config) {
            Ok(manager) => {
                let reset = reset_fib(
                    &manager.network_agent_type,
                    &manager.network_agent_connection,
                );
                Ok((manager, reset))
            },
            Err(e) => Err(e),
        }
    }

    /// The invariant of the tables.
    pub open spec fn wf(&self) -> bool {
        self.state.wf()
    }

    pub fn get_master_ip(&self) -> (r: String)
        ensures
            r@ == self@.state.master_ip,
    {
        self.state.master_ip.clone()
    }

    pub fn get_my_name(&self) -> (r: String)
        ensures
            r@ == self@.state.my_name,
    {
        self.state.my_name.clone()
    }

    pub fn get_ipmi_proxy(&self) -> (r: String)
        ensures
            r@ == self@.ipmi_proxy,
    {
        self.ipmi_proxy.clone()
    }

    pub fn get_my_framework_id(&self) -> (r: String)
        ensures
            r@ == self@.my_framework_id,
    {
        self.my_framework_id.clone()
    }

    pub fn get_my_ip(&self) -> (r: String)
        ensures
            r@ == self@.my_ip,
    {
        self.my_ip.clone()
    }

    pub fn get_network_agent_type(&self) -> (r: String)
        ensures
            r@ == self@.network_agent_type,
    {
        self.network_agent_type.clone()
    }

    pub fn get_network_agent_connection(&self) -> (r: String)
        ensures
            r@ == self@.network_agent_connection,
    {
        self.network_agent_connection.clone()
    }

    /// Hands `request` to the custodian and takes its reply.
    pub fn ask(&mut self, request: StateRequestMsg, now: i64) -> (r: (
        StateResponseMsg,
        Option<ServiceRegistration>,
    ))
        requires
            old(self).wf(),
        ensures
            final(self).wf(),
            final(self)@ == after(old(self)@, request@, now),
            r.0@ == crate::state::reply(old(self)@.state, request@),
            registration_view(r.1) == registration_due(old(self)@.state, request@),
    {
        self.state.serve(request, now)
    }

    /// Probes the custodian. Nothing changes.
    pub fn send_ping(&mut self)
        requires
            old(self).wf(),
        ensures
            final(self).wf(),
            final(self)@ == old(self)@,
    {
        let _ = self.ask(StateRequestMsg::Ping, 0);
    }

    /// State of the task named `task_name`; `NotRunning` where there is
    /// none.
    pub fn request_task_state(&mut self, task_name: String) -> (r: TaskState)
        requires
            old(self).wf(),
        ensures
            final(self).wf(),
            final(self)@ == old(self)@,
            r == task_state(old(self)@.state, task_name@),
    {
        match self.ask(StateRequestMsg::GetTaskState { task_name: task_name }, 0).0 {
            StateResponseMsg::TaskState { task_state } => task_state,
            _ => TaskState::NotRunning,
        }
    }

    /// Ip of the task named `task_name`; empty where there is none.
    pub fn request_task_ip(&mut self, task_name: String) -> (r: String)
        requires
            old(self).wf(),
        ensures
            final(self).wf(),
            final(self)@ == old(self)@,
            r@ == task_ip(old(self)@.state, task_name@),
    {
        match self.ask(StateRequestMsg::GetTaskIP { task_name: task_name }, 0).0 {
            StateResponseMsg::TaskIP { task_ip } => task_ip,
            _ => String::new(),
        }
    }

    /// Name of the first task, in table order, whose id begins with
    /// `id_prefix`; empty where the prefix is empty or nothing matches.
    pub fn request_task_name_by_id(&mut self, id_prefix: String) -> (r: String)
        requires
            old(self).wf(),
        ensures
            final(self).wf(),
            final(self)@ == old(self)@,
            r@ == task_list::name_by_id(old(self)@.state.tasks, id_prefix@),
    {
        match self.ask(StateRequestMsg::GetTaskNameById { id_prefix: id_prefix }, 0).0 {
            StateResponseMsg::TaskName { task_name } => task_name,
            _ => String::new(),
        }
    }

    /// Name of the first task, in table order, whose id is exactly `id`;
    /// `None` where `id` is empty or no task has it.
    pub fn request_task_name_with_id(&mut self, id: String) -> (r: Option<String>)
        requires
            old(self).wf(),
        ensures
            final(self).wf(),
            final(self)@ == old(self)@,
            r.is_some() == task_list::name_with_id(old(self)@.state.tasks, id@).is_some(),
            r matches Some(name) ==> Some(name@) == task_list::name_with_id(
                old(self)@.state.tasks,
                id@,
            ),
    {
        match self.ask(StateRequestMsg::GetTaskNameWithId { id: id }, 0).0 {
            StateResponseMsg::TaskNameWithId { task_name } => task_name,
            _ => None,
        }
    }

    /// Sets the state of the task named `task_name`. Where the new state
    /// is `Running` and the table holds the task, the result is the one
    /// registration that is to be made of it.
    pub fn send_update_task_state(&mut self, task_name: String, task_state: TaskState) -> (r:
        Option<ServiceRegistration>)
        requires
            old(self).wf(),
        ensures
            final(self).wf(),
            final(self)@.state.tasks == task_list::with_state_set(
                old(self)@.state.tasks,
                task_name@,
                task_state,
            ),
            final(self)@ == (ManagerView {
                state: StateView { tasks: final(self)@.state.tasks, ..old(self)@.state },
                ..old(self)@
            }),
            registration_view(r) == registration_due(
                old(self)@.state,
                RequestView::UpdateTaskState { task_name: task_name@, task_state: task_state },
            ),
    {
        self.ask(
            StateRequestMsg::UpdateTaskState { task_name: task_name, task_state: task_state },
            0,
        ).1
    }

    /// Sets the node of the task named `task_name`.
    pub fn send_update_task_node_name(&mut self, task_name: String, node_name: String)
        requires
            old(self).wf(),
        ensures
            final(self).wf(),
            final(self)@.state.tasks == task_list::with_node_name_set(
                old(self)@.state.tasks,
                task_name@,
                node_name@,
            ),
            final(self)@ == (ManagerView {
                state: StateView { tasks: final(self)@.state.tasks, ..old(self)@.state },
                ..old(self)@
            }),
    {
        let _ = self.ask(
            StateRequestMsg::UpdateTaskNodeName { task_name: task_name, node_name: node_name },
            0,
        );
    }

    /// Sets id, ip and slave id of the task named `task_name`.
    pub fn send_update_task_info(&mut self, task_name: String, id: String, ip: String, slave_id: String)
        requires
            old(self).wf(),
        ensures
            final(self).wf(),
            final(self)@.state.tasks == task_list::with_info_set(
                old(self)@.state.tasks,
                task_name@,
                id@,
                ip@,
                slave_id@,
            ),
            final(self)@ == (ManagerView {
                state: StateView { tasks: final(self)@.state.tasks, ..old(self)@.state },
                ..old(self)@
            }),
    {
        let _ = self.ask(
            StateRequestMsg::UpdateTaskInfo { task_name: task_name, id: id, ip: ip, slave_id: slave_id },
            0,
        );
    }

    /// Inserts `task`, in place of a task of the same name where the
    /// table holds one.
    pub fn start_task(&mut self, task: Task)
        requires
            old(self).wf(),
        ensures
            final(self).wf(),
            final(self)@.state.tasks == task_list::inserted(old(self)@.state.tasks, task@),
            final(self)@ == (ManagerView {
                state: StateView { tasks: final(self)@.state.tasks, ..old(self)@.state },
                ..old(self)@
            }),
    {
        let _ = self.ask(StateRequestMsg::StartTask { task: task }, 0);
    }

    /// Requests a new task of this controller, stamped `now`. A task of
    /// the same name is replaced.
    pub fn start_task_at(
        &mut self,
        name: &String,
        image: &String,
        node_name: &String,
        node_type: &String,
        node_function: &String,
        dependent_service: &String,
        arguments: &String,
        parameters: &String,
        memory: &u64,
        cpu: &u64,
        volumes: &Vec<Volume>,
        privileged: &bool,
        sla: &SLA,
        is_metered: &bool,
        is_system_service: &bool,
        is_job: &bool,
        network_type: &String,
        now: i64,
    )
        requires
            old(self).wf(),
        ensures
            final(self).wf(),
            final(self)@.state.tasks == task_list::inserted(
                old(self)@.state.tasks,
                requested_task(
                    old(self)@.state.my_name,
                    name@,
                    image@,
                    node_name@,
                    node_type@,
                    node_function@,
                    dependent_service@,
                    arguments@,
                    parameters@,
                    *memory,
                    *cpu,
                    volumes_view(volumes@),
                    *privileged,
                    *sla,
                    *is_metered,
                    *is_system_service,
                    *is_job,
                    network_type@,
                    now,
                ),
            ),
            final(self)@ == (ManagerView {
                state: StateView { tasks: final(self)@.state.tasks, ..old(self)@.state },
                ..old(self)@
            }),
    {
        let new_task = Task {
            name: name.clone(),
            controller: self.get_my_name(),
            id: String::new(),
            image: image.clone(),
            node_name: node_name.clone(),
            node_type: node_type.clone(),
            node_function: node_function.clone(),
            dependent_service: dependent_service.clone(),
            arguments: arguments.clone(),
            parameters: parameters.clone(),
            memory: *memory,
            cpu: *cpu,
            privileged: *privileged,
            sla: *sla,
            is_metered: *is_metered,
            is_system_service: *is_system_service,
            is_job: *is_job,
            volumes: snapshot_volumes(volumes),
            network_type: network_type.clone(),
            ip: String::new(),
            slave_id: String::new(),
            state: TaskState::Requested,
            last_update: now,
        };
        self.start_task(new_task);
    }

    /// Requests a new task of this controller, stamped with the current
    /// time. A task of the same name is replaced.
    pub fn send_start_task(
        &mut self,
        name: &String,
        image: &String,
        node_name: &String,
        node_type: &String,
        node_function: &String,
        dependent_service: &String,
        arguments: &String,
        parameters: &String,
        memory: &u64,
        cpu: &u64,
        volumes: &Vec<Volume>,
        privileged: &bool,
        sla: &SLA,
        is_metered: &bool,
        is_system_service: &bool,
        is_job: &bool,
        network_type: &String,
    )
        requires
            old(self).wf(),
        ensures
            final(self).wf(),
            exists|now: i64|
                final(self)@.state.tasks == task_list::inserted(
                    old(self)@.state.tasks,
                    #[trigger] requested_task(
                        old(self)@.state.my_name,
                        name@,
                        image@,
                        node_name@,
                        node_type@,
                        node_function@,
                        dependent_service@,
                        arguments@,
                        parameters@,
                        *memory,
                        *cpu,
                        volumes_view(volumes@),
                        *privileged,
                        *sla,
                        *is_metered,
                        *is_system_service,
                        *is_job,
                        network_type@,
                        now,
                    ),
                ),
            final(self)@ == (ManagerView {
                state: StateView { tasks: final(self)@.state.tasks, ..old(self)@.state },
                ..old(self)@
            }),
    {
        let now = utc_now();
        self.start_task_at(
            name,
            image,
            node_name,
            node_type,
            node_function,
            dependent_service,
            arguments,
            parameters,
            memory,
            cpu,
            volumes,
            privileged,
            sla,
            is_metered,
            is_system_service,
            is_job,
            network_type,
            now,
        );
    }

    /// Flags the task named `task_name` for restart, stamped `now`.
    pub fn restart_task_at(&mut self, task_name: String, now: i64)
        requires
            old(self).wf(),
        ensures
            final(self).wf(),
            final(self)@.state.tasks == crate::state::restarted(
                old(self)@.state.tasks,
                task_name@,
                now,
            ),
            final(self)@ == (ManagerView {
                state: StateView { tasks: final(self)@.state.tasks, ..old(self)@.state },
                ..old(self)@
            }),
    {
        let _ = self.ask(StateRequestMsg::RestartTask { task_name: task_name }, now);
    }

    /// Flags the task named `task_name` for restart, stamped with the
    /// current time.
    pub fn send_restart_task(&mut self, task_name: String)
        requires
            old(self).wf(),
        ensures
            final(self).wf(),
            exists|now: i64|
                final(self)@.state.tasks == #[trigger] crate::state::restarted(
                    old(self)@.state.tasks,
                    task_name@,
                    now,
                ),
            final(self)@ == (ManagerView {
                state: StateView { tasks: final(self)@.state.tasks, ..old(self)@.state },
                ..old(self)@
            }),
    {
        let now = utc_now();
        self.restart_task_at(task_name, now);
    }

    /// Whether the task named `task_name` is one that this controller
    /// restarts: a system service of its own that is no job.
    pub fn request_is_restartable_task(&mut self, task_name: String) -> (r: bool)
        requires
            old(self).wf(),
        ensures
            final(self).wf(),
            final(self)@ == old(self)@,
            r == restartable(old(self)@.state, task_name@),
    {
        match self.ask(StateRequestMsg::GetIsRestartableTask { task_name: task_name }, 0).0 {
            StateResponseMsg::GetIsRestartableTask { is_restartable_task } => is_restartable_task,
            _ => false,
        }
    }

    /// Removes the task named `task_name`.
    pub fn send_remove_task_by_name(&mut self, task_name: String)
        requires
            old(self).wf(),
        ensures
            final(self).wf(),
            final(self)@.state.tasks == task_list::removed(old(self)@.state.tasks, task_name@),
            final(self)@ == (ManagerView {
                state: StateView { tasks: final(self)@.state.tasks, ..old(self)@.state },
                ..old(self)@
            }),
    {
        let _ = self.ask(StateRequestMsg::RemoveTask { task_name: task_name }, 0);
    }

    /// Copies of the tasks in state `Requested`, in table order.
    pub fn request_list_requested_tasks(&mut self) -> (r: Vec<Task>)
        requires
            old(self).wf(),
        ensures
            final(self).wf(),
            final(self)@ == old(self)@,
            tasks_view(r@) == task_list::in_state(old(self)@.state.tasks, TaskState::Requested),
    {
        match self.ask(StateRequestMsg::GetRequestedTasks, 0).0 {
            StateResponseMsg::GetRequestedTasks { requested_tasks } => requested_tasks,
            _ => Vec::new(),
        }
    }

    /// Copies of the tasks in state `Running`, in table order.
    pub fn request_list_running_tasks(&mut self) -> (r: Vec<Task>)
        requires
            old(self).wf(),
        ensures
            final(self).wf(),
            final(self)@ == old(self)@,
            tasks_view(r@) == task_list::in_state(old(self)@.state.tasks, TaskState::Running),
    {
        match self.ask(StateRequestMsg::GetRunningTasks, 0).0 {
            StateResponseMsg::GetRunningTasks { running_tasks } => running_tasks,
            _ => Vec::new(),
        }
    }

    /// Copies of the tasks in state `Restart`, in table order.
    pub fn request_list_restart_tasks(&mut self) -> (r: Vec<Task>)
        requires
            old(self).wf(),
        ensures
            final(self).wf(),
            final(self)@ == old(self)@,
            tasks_view(r@) == task_list::in_state(old(self)@.state.tasks, TaskState::Restart),
    {
        match self.ask(StateRequestMsg::GetRestartTasks, 0).0 {
            StateResponseMsg::GetRestartTasks { restart_tasks } => restart_tasks,
            _ => Vec::new(),
        }
    }

    /// Makes a node of the configuration known, stamped `now`. A node of
    /// the same name is replaced.
    pub fn add_node_at(
        &mut self,
        name: String,
        ip: String,
        external_ip: String,
        management_ip: String,
        port_id: i64,
        node_type: String,
        now: i64,
    )
        requires
            old(self).wf(),
        ensures
            final(self).wf(),
            final(self)@.state.nodes == node_list::inserted(
                old(self)@.state.nodes,
                configured_node(name@, ip@, external_ip@, management_ip@, port_id, node_type@, now),
            ),
            final(self)@ == (ManagerView {
                state: StateView { nodes: final(self)@.state.nodes, ..old(self)@.state },
                ..old(self)@
            }),
    {
        let new_node = Node {
            name: name,
            ip: ip,
            external_ip: external_ip,
            management_ip: management_ip,
            node_type: node_type,
            node_function: "none".to_string(),
            active: false,
            slave_id: String::new(),
            port_id: port_id,
            last_seen: now,
        };
        let _ = self.ask(StateRequestMsg::AddNode { node: new_node }, now);
    }

    /// Makes a node of the configuration known, stamped with the current
    /// time.
    pub fn send_add_node(
        &mut self,
        name: String,
        ip: String,
        external_ip: String,
        management_ip: String,
        port_id: i64,
        node_type: String,
    )
        requires
            old(self).wf(),
        ensures
            final(self).wf(),
            exists|now: i64|
                final(self)@.state.nodes == node_list::inserted(
                    old(self)@.state.nodes,
                    #[trigger] configured_node(
                        name@,
                        ip@,
                        external_ip@,
                        management_ip@,
                        port_id,
                        node_type@,
                        now,
                    ),
                ),
            final(self)@ == (ManagerView {
                state: StateView { nodes: final(self)@.state.nodes, ..old(self)@.state },
                ..old(self)@
            }),
    {
        let now = utc_now();
        self.add_node_at(name, ip, external_ip, management_ip, port_id, node_type, now);
    }

    /// Whether the node named `node_name` is active; false where there is
    /// none.
    pub fn request_is_node_active(&mut self, node_name: String) -> (r: bool)
        requires
            old(self).wf(),
        ensures
            final(self).wf(),
            final(self)@ == old(self)@,
            r == match node_list::lookup(old(self)@.state.nodes, node_name@) {
                Some(node) => node.active,
                None => false,
            },
    {
        match self.ask(StateRequestMsg::GetIsNodeActive { node_name: node_name }, 0).0 {
            StateResponseMsg::GetIsNodeActive { is_active } => is_active,
            _ => false,
        }
    }

    /// Marks the node named `node_name` inactive.
    pub fn send_set_node_inactive(&mut self, node_name: String)
        requires
            old(self).wf(),
        ensures
            final(self).wf(),
            final(self)@.state.nodes == node_list::deactivated(old(self)@.state.nodes, node_name@),
            final(self)@ == (ManagerView {
                state: StateView { nodes: final(self)@.state.nodes, ..old(self)@.state },
                ..old(self)@
            }),
    {
        let _ = self.ask(StateRequestMsg::SetNodeInactive { node_name: node_name }, 0);
    }

    /// Records that the node named `node_name` reported in at the time
    /// `now`.
    pub fn update_node_at(
        &mut self,
        node_name: String,
        node_type: String,
        node_function: String,
        slave_id: String,
        now: i64,
    )
        requires
            old(self).wf(),
        ensures
            final(self).wf(),
            final(self)@.state.nodes == node_list::refreshed(
                old(self)@.state.nodes,
                node_name@,
                node_type@,
                node_function@,
                slave_id@,
                now,
            ),
            final(self)@ == (ManagerView {
                state: StateView { nodes: final(self)@.state.nodes, ..old(self)@.state },
                ..old(self)@
            }),
    {
        let _ = self.ask(
            StateRequestMsg::UpdateNode {
                node_name: node_name,
                node_type: node_type,
                node_function: node_function,
                slave_id: slave_id,
            },
            now,
        );
    }

    /// Records that the node named `node_name` reported in just now.
    pub fn send_update_node(
        &mut self,
        node_name: String,
        node_type: String,
        node_function: String,
        slave_id: String,
    )
        requires
            old(self).wf(),
        ensures
            final(self).wf(),
            exists|now: i64|
                final(self)@.state.nodes == #[trigger] node_list::refreshed(
                    old(self)@.state.nodes,
                    node_name@,
                    node_type@,
                    node_function@,
                    slave_id@,
                    now,
                ),
            final(self)@ == (ManagerView {
                state: StateView { nodes: final(self)@.state.nodes, ..old(self)@.state },
                ..old(self)@
            }),
    {
        let now = utc_now();
        self.update_node_at(node_name, node_type, node_function, slave_id, now);
    }

    /// A copy of the node named `node_name`; `None` where there is none.
    pub fn request_node(&mut self, node_name: String) -> (r: Option<Node>)
        requires
            old(self).wf(),
        ensures
            final(self).wf(),
            final(self)@ == old(self)@,
            match r {
                Some(node) => node_list::lookup(old(self)@.state.nodes, node_name@) == Some(node@),
                None => node_list::lookup(old(self)@.state.nodes, node_name@).is_none(),
            },
    {
        match self.ask(StateRequestMsg::GetNode { node_name: node_name }, 0).0 {
            StateResponseMsg::GetNode { node } => Some(node),
            _ => None,
        }
    }

    /// Copies of all nodes, in table order.
    pub fn request_list_nodes(&mut self) -> (r: Vec<Node>)
        requires
            old(self).wf(),
        ensures
            final(self).wf(),
            final(self)@ == old(self)@,
            nodes_view(r@) == old(self)@.state.nodes,
    {
        match self.ask(StateRequestMsg::GetNodes, 0).0 {
            StateResponseMsg::GetNodes { nodes } => nodes,
            _ => Vec::new(),
        }
    }
}

} // verus!
