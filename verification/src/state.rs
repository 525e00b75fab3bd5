//! The custodian of the tables: it serves one request at a time, and each
//! request is a step from the state before to the state after, a reply,
//! and at most one registration with the service registry.

use vstd::prelude::*;
use crate::consul::{
    register_running_task, registration, ServiceRegistration, ServiceRegistrationView,
};
use crate::message::{RequestView, ResponseView, StateRequestMsg, StateResponseMsg};
use crate::node::NodeView;
use crate::node_list;
use crate::node_list::NodeList;
use crate::task::{TaskState, TaskView};
use crate::task_list;
use crate::task_list::TaskList;

verus! {

/// The tables and the identity of the controller that owns them.
pub struct State {
    pub master_ip: String,
    pub my_name: String,
    pub task_list: TaskList,
    pub node_list: NodeList,
}

/// Mathematical value of a [`State`].
pub struct StateView {
    pub master_ip: Seq<char>,
    pub my_name: Seq<char>,
    pub tasks: Seq<TaskView>,
    pub nodes: Seq<NodeView>,
}

impl View for State {
    type V = StateView;

    open spec fn view(&self) -> StateView {
        StateView {
            master_ip: self.master_ip@,
            my_name: self.my_name@,
            tasks: self.task_list@,
            nodes: self.node_list@,
        }
    }
}

/// The value of an optional registration.
pub open spec fn registration_view(r: Option<ServiceRegistration>) -> Option<
    ServiceRegistrationView,
> {
    match r {
        Some(x) => Some(x@),
        None => None,
    }
}

/// The task table after the tasks stamped `now` the task named `name` and
/// flagged it for restart.
pub open spec fn restarted(tasks: Seq<TaskView>, name: Seq<char>, now: i64) -> Seq<TaskView> {
    task_list::with_state_set(
        task_list::with_last_update_set(tasks, name, now),
        name,
        TaskState::Restart,
    )
}

/// The task table after `request` was served at the time `now`.
pub open spec fn next_tasks(s: StateView, request: RequestView, now: i64) -> Seq<TaskView> {
    match request {
        RequestView::UpdateTaskState { task_name, task_state } => task_list::with_state_set(
            s.tasks,
            task_name,
            task_state,
        ),
        RequestView::UpdateTaskNodeName { task_name, node_name } => {
            task_list::with_node_name_set(s.tasks, task_name, node_name)
        },
        RequestView::UpdateTaskInfo { task_name, id, ip, slave_id } => task_list::with_info_set(
            s.tasks,
            task_name,
            id,
            ip,
            slave_id,
        ),
        RequestView::UpdateTaskLastUpdate { task_name } => task_list::with_last_update_set(
            s.tasks,
            task_name,
            now,
        ),
        RequestView::StartTask { task } => task_list::inserted(s.tasks, task),
        RequestView::RestartTask { task_name } => restarted(s.tasks, task_name, now),
        RequestView::RemoveTask { task_name } => task_list::removed(s.tasks, task_name),
        _ => s.tasks,
    }
}

/// The node table after `request` was served at the time `now`.
pub open spec fn next_nodes(s: StateView, request: RequestView, now: i64) -> Seq<NodeView> {
    match request {
        RequestView::AddNode { node } => node_list::inserted(s.nodes, node),
        RequestView::UpdateNode { node_name, node_type, node_function, slave_id } => {
            node_list::refreshed(s.nodes, node_name, node_type, node_function, slave_id, now)
        },
        RequestView::SetNodeInactive { node_name } => node_list::deactivated(s.nodes, node_name),
        _ => s.nodes,
    }
}

/// The state after `request` was served at the time `now`.
pub open spec fn next_state(s: StateView, request: RequestView, now: i64) -> StateView {
    StateView {
        master_ip: s.master_ip,
        my_name: s.my_name,
        tasks: next_tasks(s, request, now),
        nodes: next_nodes(s, request, now),
    }
}

/// Whether the task named `name` is one that this controller restarts: a
/// system service of its own that is no job.
pub open spec fn restartable(s: StateView, name: Seq<char>) -> bool {
    match task_list::lookup(s.tasks, name) {
        Some(task) => task.is_system_service && task.controller == s.my_name && !task.is_job,
        None => false,
    }
}

/// The ip of the task named `name`; empty where there is none.
pub open spec fn task_ip(s: StateView, name: Seq<char>) -> Seq<char> {
    match task_list::lookup(s.tasks, name) {
        Some(task) => task.ip,
        None => Seq::empty(),
    }
}

/// The state of the task named `name`; `NotRunning` where there is none.
pub open spec fn task_state(s: StateView, name: Seq<char>) -> TaskState {
    match task_list::lookup(s.tasks, name) {
        Some(task) => task.state,
        None => TaskState::NotRunning,
    }
}

/// The reply to `request` in the state `s`. A reply to a read speaks of
/// the state in which the request is served.
pub open spec fn reply(s: StateView, request: RequestView) -> ResponseView {
    match request {
        RequestView::Ping => ResponseView::Pong,
        RequestView::GetTaskState { task_name } => ResponseView::TaskState {
            task_state: task_state(s, task_name),
        },
        RequestView::GetTaskIP { task_name } => ResponseView::TaskIP {
            task_ip: task_ip(s, task_name),
        },
        RequestView::GetTaskNameById { id_prefix } => ResponseView::TaskName {
            task_name: task_list::name_by_id(s.tasks, id_prefix),
        },
        RequestView::GetTaskNameWithId { id } => ResponseView::TaskNameWithId {
            task_name: task_list::name_with_id(s.tasks, id),
        },
        RequestView::UpdateTaskState { .. } => ResponseView::UpdateTaskState,
        RequestView::UpdateTaskNodeName { .. } => ResponseView::UpdateTaskNodeName,
        RequestView::UpdateTaskInfo { .. } => ResponseView::UpdateTaskInfo,
        RequestView::UpdateTaskLastUpdate { .. } => ResponseView::UpdateTaskLastUpdate,
        RequestView::StartTask { .. } => ResponseView::StartTask,
        RequestView::RestartTask { .. } => ResponseView::RestartTask,
        RequestView::RemoveTask { .. } => ResponseView::RemoveTask,
        RequestView::GetIsRestartableTask { task_name } => ResponseView::GetIsRestartableTask {
            is_restartable_task: restartable(s, task_name),
        },
        RequestView::GetRequestedTasks => ResponseView::GetRequestedTasks {
            requested_tasks: task_list::in_state(s.tasks, TaskState::Requested),
        },
        RequestView::GetRunningTasks => ResponseView::GetRunningTasks {
            running_tasks: task_list::in_state(s.tasks, TaskState::Running),
        },
        RequestView::GetRestartTasks => ResponseView::GetRestartTasks {
            restart_tasks: task_list::in_state(s.tasks, TaskState::Restart),
        },
        RequestView::AddNode { .. } => ResponseView::AddNode,
        RequestView::GetIsNodeActive { node_name } => ResponseView::GetIsNodeActive {
            is_active: match node_list::lookup(s.nodes, node_name) {
                Some(node) => node.active,
                None => false,
            },
        },
        RequestView::UpdateNode { .. } => ResponseView::UpdateNode,
        RequestView::SetNodeInactive { .. } => ResponseView::SetNodeInactive,
        RequestView::GetNode { node_name } => match node_list::lookup(s.nodes, node_name) {
            Some(node) => ResponseView::GetNode { node: node },
            None => ResponseView::NodeNotFound,
        },
        RequestView::GetNodes => ResponseView::GetNodes { nodes: s.nodes },
    }
}

/// The registration that serving `request` in the state `s` calls for: one
/// for a task that is set to `Running`, under the name and ip that the
/// table holds for it, and none for anything else.
pub open spec fn registration_due(s: StateView, request: RequestView) -> Option<
    ServiceRegistrationView,
> {
    match request {
        RequestView::UpdateTaskState { task_name, task_state } => {
            if task_state == TaskState::Running {
                match task_list::lookup(s.tasks, task_name) {
                    Some(task) => Some(registration(s.master_ip, task.name, task.ip)),
                    None => None,
                }
            } else {
                None
            }
        },
        _ => None,
    }
}

impl State {
    /// The invariant of both tables.
    pub open spec fn wf(&self) -> bool {
        self.task_list.wf() && self.node_list.wf()
    }

    /// The state of a controller that has just started: both tables empty.
    pub fn new(master_ip: String, my_name: String) -> (r: State)
        ensures
            r.wf(),
            r@ == (StateView {
                master_ip: master_ip@,
                my_name: my_name@,
                tasks: Seq::empty(),
                nodes: Seq::empty(),
            }),
    {
        State {
            master_ip: master_ip,
            my_name: my_name,
            task_list: TaskList::new(),
            node_list: NodeList::new(),
        }
    }

    /// Ip of the task named `task_name`; empty where there is none.
    pub fn get_task_ip(&self, task_name: &String) -> (r: String)
        ensures
            r@ == task_ip(self@, task_name@),
    {
        match self.task_list.get_task(task_name) {
            Ok(task) => task.ip,
            Err(_) => String::new(),
        }
    }

    /// Sets the state of the task named `task_name`. Where the new state
    /// is `Running` and the table holds the task, the result is the
    /// registration of the task with the service registry.
    pub fn update_task_state(&mut self, task_name: &String, task_state: TaskState) -> (r: Option<
        ServiceRegistration,
    >)
        requires
            old(self).wf(),
        ensures
            final(self).wf(),
            final(self)@ == next_state(
                old(self)@,
                RequestView::UpdateTaskState { task_name: task_name@, task_state: task_state },
                0,
            ),
            registration_view(r) == registration_due(
                old(self)@,
                RequestView::UpdateTaskState { task_name: task_name@, task_state: task_state },
            ),
    {
        self.task_list.set_task_state(task_name, task_state);
        proof {
            lemma_state_set(old(self)@.tasks, task_name@, task_state);
        }
        match task_state {
            TaskState::Running => {
                match self.task_list.get_task(task_name) {
                    Ok(task) => Some(register_running_task(&self.master_ip, &task)),
                    Err(_) => None,
                }
            },
            _ => None,
        }
    }

    /// Stamps the task named `task_name` with `now` and flags it for
    /// restart.
    pub fn restart_task(&mut self, task_name: &String, now: i64)
        requires
            old(self).wf(),
        ensures
            final(self).wf(),
            final(self)@ == next_state(
                old(self)@,
                RequestView::RestartTask { task_name: task_name@ },
                now,
            ),
    {
        self.task_list.update_task_last_update(task_name, now);
        self.task_list.set_task_state(task_name, TaskState::Restart);
    }

    /// Whether the task named `task_name` is one that this controller
    /// restarts.
    pub fn get_is_restartable_task(&self, task_name: &String) -> (r: bool)
        ensures
            r == restartable(self@, task_name@),
    {
        match self.task_list.get_task(task_name) {
            Ok(task) => task.is_system_service && task.controller == self.my_name && !task.is_job,
            Err(_) => false,
        }
    }

    /// Serves one request at the time `now`: changes the tables as the
    /// request asks, and gives the reply and the registration, if any,
    /// that is to be made before the reply is delivered.
    pub fn serve(&mut self, request: StateRequestMsg, now: i64) -> (r: (
        StateResponseMsg,
        Option<ServiceRegistration>,
    ))
        requires
            old(self).wf(),
        ensures
            final(self).wf(),
            final(self)@ == next_state(old(self)@, request@, now),
            r.0@ == reply(old(self)@, request@),
            registration_view(r.1) == registration_due(old(self)@, request@),
    {
        match request {
            StateRequestMsg::Ping => (StateResponseMsg::Pong, None),
            StateRequestMsg::GetTaskState { task_name } => {
                let task_state = self.task_list.get_task_state(&task_name);
                (StateResponseMsg::TaskState { task_state }, None)
            },
            StateRequestMsg::GetTaskIP { task_name } => {
                let task_ip = self.get_task_ip(&task_name);
                (StateResponseMsg::TaskIP { task_ip }, None)
            },
            StateRequestMsg::GetTaskNameById { id_prefix } => {
                let task_name = self.task_list.get_task_name_by_id(&id_prefix);
                (StateResponseMsg::TaskName { task_name }, None)
            },
            StateRequestMsg::GetTaskNameWithId { id } => {
                let task_name = self.task_list.get_task_name_with_id(&id);
                (StateResponseMsg::TaskNameWithId { task_name }, None)
            },
            StateRequestMsg::UpdateTaskState { task_name, task_state } => {
                let due = self.update_task_state(&task_name, task_state);
                (StateResponseMsg::UpdateTaskState, due)
            },
            StateRequestMsg::UpdateTaskNodeName { task_name, node_name } => {
                self.task_list.set_task_node_name(&task_name, node_name);
                (StateResponseMsg::UpdateTaskNodeName, None)
            },
            StateRequestMsg::UpdateTaskInfo { task_name, id, ip, slave_id } => {
                self.task_list.set_task_info(&task_name, id, ip, slave_id);
                (StateResponseMsg::UpdateTaskInfo, None)
            },
            StateRequestMsg::UpdateTaskLastUpdate { task_name } => {
                self.task_list.update_task_last_update(&task_name, now);
                (StateResponseMsg::UpdateTaskLastUpdate, None)
            },
            StateRequestMsg::StartTask { task } => {
                self.task_list.add_new_task(&task);
                (StateResponseMsg::StartTask, None)
            },
            StateRequestMsg::RestartTask { task_name } => {
                self.restart_task(&task_name, now);
                (StateResponseMsg::RestartTask, None)
            },
            StateRequestMsg::RemoveTask { task_name } => {
                self.task_list.remove_task_by_name(&task_name);
                (StateResponseMsg::RemoveTask, None)
            },
            StateRequestMsg::GetIsRestartableTask { task_name } => {
                let is_restartable_task = self.get_is_restartable_task(&task_name);
                (StateResponseMsg::GetIsRestartableTask { is_restartable_task }, None)
            },
            StateRequestMsg::GetRequestedTasks => {
                let requested_tasks = self.task_list.get_tasks_with_state(TaskState::Requested);
                (StateResponseMsg::GetRequestedTasks { requested_tasks }, None)
            },
            StateRequestMsg::GetRunningTasks => {
                let running_tasks = self.task_list.get_tasks_with_state(TaskState::Running);
                (StateResponseMsg::GetRunningTasks { running_tasks }, None)
            },
            StateRequestMsg::GetRestartTasks => {
                let restart_tasks = self.task_list.get_tasks_with_state(TaskState::Restart);
                (StateResponseMsg::GetRestartTasks { restart_tasks }, None)
            },
            StateRequestMsg::AddNode { node } => {
                self.node_list.add_new_node(&node);
                (StateResponseMsg::AddNode, None)
            },
            StateRequestMsg::GetIsNodeActive { node_name } => {
                let is_active = self.node_list.is_node_active(&node_name);
                (StateResponseMsg::GetIsNodeActive { is_active }, None)
            },
            StateRequestMsg::UpdateNode { node_name, node_type, node_function, slave_id } => {
                self.node_list.update_node(&node_name, node_type, node_function, slave_id, now);
                (StateResponseMsg::UpdateNode, None)
            },
            StateRequestMsg::SetNodeInactive { node_name } => {
                self.node_list.set_node_inactive(&node_name);
                (StateResponseMsg::SetNodeInactive, None)
            },
            StateRequestMsg::GetNode { node_name } => {
                match self.node_list.get_node(&node_name) {
                    Ok(node) => (StateResponseMsg::GetNode { node }, None),
                    Err(_) => (StateResponseMsg::NodeNotFound, None),
                }
            },
            StateRequestMsg::GetNodes => {
                let nodes = self.node_list.get_nodes();
                (StateResponseMsg::GetNodes { nodes }, None)
            },
        }
    }
}

/// Setting a task of the table to `Running` calls for exactly one
/// registration, under the task's name and ip, and leaves the task in
/// state `Running`; no other request calls for a registration.
pub proof fn lemma_running_registers(s: StateView, name: Seq<char>, now: i64)
    requires
        task_list::names_unique(s.tasks),
        task_list::lookup(s.tasks, name).is_some(),
    ensures
        registration_due(
            s,
            RequestView::UpdateTaskState { task_name: name, task_state: TaskState::Running },
        ) == Some(registration(s.master_ip, name, task_list::lookup(s.tasks, name)->0.ip)),
        task_list::lookup(
            next_tasks(
                s,
                RequestView::UpdateTaskState { task_name: name, task_state: TaskState::Running },
                now,
            ),
            name,
        ) == Some(TaskView { state: TaskState::Running, ..task_list::lookup(s.tasks, name)->0 }),
        forall|request: RequestView|
            #[trigger] registration_due(s, request).is_some() ==> (request
                matches RequestView::UpdateTaskState { task_state, .. } && task_state
                == TaskState::Running),
{
    crate::table::lemma_first_index(s.tasks, |t: TaskView| t.name == name);
    lemma_state_set(s.tasks, name, TaskState::Running);
}

/// A node that the table holds stays in it: no request removes a node.
pub proof fn lemma_nodes_stay(s: StateView, request: RequestView, now: i64, name: Seq<char>)
    requires
        node_list::names_unique(s.nodes),
        node_list::lookup(s.nodes, name).is_some(),
    ensures
        node_list::names_unique(next_nodes(s, request, now)),
        node_list::lookup(next_nodes(s, request, now), name).is_some(),
{
    match request {
        RequestView::AddNode { node } => {
            node_list::lemma_inserted(s.nodes, node);
        },
        RequestView::UpdateNode { node_name, node_type, node_function, slave_id } => {
            let change = |n: NodeView|
                NodeView {
                    node_type: node_type,
                    node_function: node_function,
                    slave_id: slave_id,
                    active: true,
                    last_seen: now,
                    ..n
                };
            node_list::lemma_changed_keeps_names(s.nodes, node_name, change);
            assert(node_list::position(next_nodes(s, request, now), name) == node_list::position(
                s.nodes,
                name,
            ));
        },
        RequestView::SetNodeInactive { node_name } => {
            let change = |n: NodeView| NodeView { active: false, ..n };
            node_list::lemma_changed_keeps_names(s.nodes, node_name, change);
            assert(node_list::position(next_nodes(s, request, now), name) == node_list::position(
                s.nodes,
                name,
            ));
        },
        _ => {},
    }
}

/// Setting the state of a task changes nothing else: the task keeps its
/// name and ip, and every other name has the record it had.
pub proof fn lemma_state_set(tasks: Seq<TaskView>, name: Seq<char>, state: TaskState)
    requires
        task_list::names_unique(tasks),
    ensures
        task_list::lookup(task_list::with_state_set(tasks, name, state), name) == match task_list::lookup(
            tasks,
            name,
        ) {
            Some(task) => Some(TaskView { state: state, ..task }),
            None => None,
        },
        forall|other: Seq<char>|
            other != name ==> #[trigger] task_list::lookup(
                task_list::with_state_set(tasks, name, state),
                other,
            ) == task_list::lookup(tasks, other),
{
    let change = |t: TaskView| TaskView { state: state, ..t };
    task_list::lemma_changed(tasks, name, change);
}

} // verus!
