//! The requests that the state's custodian serves and the replies it
//! gives: one request and one reply for each operation on the tables.

use vstd::prelude::*;
use crate::node::{Node, NodeView};
use crate::node_list::nodes_view;
use crate::task::{Task, TaskState, TaskView};
use crate::task_list::tasks_view;

verus! {

/// A request to the custodian of the tables.
#[derive(Clone, Debug)]
pub enum StateRequestMsg {
    Ping,
    GetTaskState { task_name: String },
    GetTaskIP { task_name: String },
    GetTaskNameById { id_prefix: String },
    GetTaskNameWithId { id: String },
    UpdateTaskState { task_name: String, task_state: TaskState },
    UpdateTaskNodeName { task_name: String, node_name: String },
    UpdateTaskInfo { task_name: String, id: String, ip: String, slave_id: String },
    UpdateTaskLastUpdate { task_name: String },
    StartTask { task: Task },
    RestartTask { task_name: String },
    RemoveTask { task_name: String },
    GetIsRestartableTask { task_name: String },
    GetRequestedTasks,
    GetRunningTasks,
    GetRestartTasks,
    AddNode { node: Node },
    GetIsNodeActive { node_name: String },
    UpdateNode { node_name: String, node_type: String, node_function: String, slave_id: String },
    SetNodeInactive { node_name: String },
    GetNode { node_name: String },
    GetNodes,
}

/// Mathematical value of a [`StateRequestMsg`].
pub enum RequestView {
    Ping,
    GetTaskState { task_name: Seq<char> },
    GetTaskIP { task_name: Seq<char> },
    GetTaskNameById { id_prefix: Seq<char> },
    GetTaskNameWithId { id: Seq<char> },
    UpdateTaskState { task_name: Seq<char>, task_state: TaskState },
    UpdateTaskNodeName { task_name: Seq<char>, node_name: Seq<char> },
    UpdateTaskInfo { task_name: Seq<char>, id: Seq<char>, ip: Seq<char>, slave_id: Seq<char> },
    UpdateTaskLastUpdate { task_name: Seq<char> },
    StartTask { task: TaskView },
    RestartTask { task_name: Seq<char> },
    RemoveTask { task_name: Seq<char> },
    GetIsRestartableTask { task_name: Seq<char> },
    GetRequestedTasks,
    GetRunningTasks,
    GetRestartTasks,
    AddNode { node: NodeView },
    GetIsNodeActive { node_name: Seq<char> },
    UpdateNode {
        node_name: Seq<char>,
        node_type: Seq<char>,
        node_function: Seq<char>,
        slave_id: Seq<char>,
    },
    SetNodeInactive { node_name: Seq<char> },
    GetNode { node_name: Seq<char> },
    GetNodes,
}

impl View for StateRequestMsg {
    type V = RequestView;

    open spec fn view(&self) -> RequestView {
        match *self {
            StateRequestMsg::Ping => RequestView::Ping,
            StateRequestMsg::GetTaskState { task_name } => RequestView::GetTaskState {
                task_name: task_name@,
            },
            StateRequestMsg::GetTaskIP { task_name } => RequestView::GetTaskIP {
                task_name: task_name@,
            },
            StateRequestMsg::GetTaskNameById { id_prefix } => RequestView::GetTaskNameById {
                id_prefix: id_prefix@,
            },
            StateRequestMsg::GetTaskNameWithId { id } => RequestView::GetTaskNameWithId { id: id@ },
            StateRequestMsg::UpdateTaskState { task_name, task_state } => {
                RequestView::UpdateTaskState { task_name: task_name@, task_state: task_state }
            },
            StateRequestMsg::UpdateTaskNodeName { task_name, node_name } => {
                RequestView::UpdateTaskNodeName { task_name: task_name@, node_name: node_name@ }
            },
            StateRequestMsg::UpdateTaskInfo { task_name, id, ip, slave_id } => {
                RequestView::UpdateTaskInfo {
                    task_name: task_name@,
                    id: id@,
                    ip: ip@,
                    slave_id: slave_id@,
                }
            },
            StateRequestMsg::UpdateTaskLastUpdate { task_name } => {
                RequestView::UpdateTaskLastUpdate { task_name: task_name@ }
            },
            StateRequestMsg::StartTask { task } => RequestView::StartTask { task: task@ },
            StateRequestMsg::RestartTask { task_name } => RequestView::RestartTask {
                task_name: task_name@,
            },
            StateRequestMsg::RemoveTask { task_name } => RequestView::RemoveTask {
                task_name: task_name@,
            },
            StateRequestMsg::GetIsRestartableTask { task_name } => {
                RequestView::GetIsRestartableTask { task_name: task_name@ }
            },
            StateRequestMsg::GetRequestedTasks => RequestView::GetRequestedTasks,
            StateRequestMsg::GetRunningTasks => RequestView::GetRunningTasks,
            StateRequestMsg::GetRestartTasks => RequestView::GetRestartTasks,
            StateRequestMsg::AddNode { node } => RequestView::AddNode { node: node@ },
            StateRequestMsg::GetIsNodeActive { node_name } => RequestView::GetIsNodeActive {
                node_name: node_name@,
            },
            StateRequestMsg::UpdateNode { node_name, node_type, node_function, slave_id } => {
                RequestView::UpdateNode {
                    node_name: node_name@,
                    node_type: node_type@,
                    node_function: node_function@,
                    slave_id: slave_id@,
                }
            },
            StateRequestMsg::SetNodeInactive { node_name } => RequestView::SetNodeInactive {
                node_name: node_name@,
            },
            StateRequestMsg::GetNode { node_name } => RequestView::GetNode {
                node_name: node_name@,
            },
            StateRequestMsg::GetNodes => RequestView::GetNodes,
        }
    }
}

/// A reply of the custodian of the tables. Replies carry value copies.
#[derive(Clone, Debug)]
pub enum StateResponseMsg {
    Pong,
    TaskState { task_state: TaskState },
    TaskIP { task_ip: String },
    TaskName { task_name: String },
    TaskNameWithId { task_name: Option<String> },
    UpdateTaskState,
    UpdateTaskInfo,
    UpdateTaskNodeName,
    UpdateTaskLastUpdate,
    StartTask,
    RestartTask,
    RemoveTask,
    GetIsRestartableTask { is_restartable_task: bool },
    GetRequestedTasks { requested_tasks: Vec<Task> },
    GetRunningTasks { running_tasks: Vec<Task> },
    GetRestartTasks { restart_tasks: Vec<Task> },
    AddNode,
    GetIsNodeActive { is_active: bool },
    UpdateNode,
    SetNodeInactive,
    GetNodes { nodes: Vec<Node> },
    GetNode { node: Node },
    NodeNotFound,
}

/// Mathematical value of a [`StateResponseMsg`].
pub enum ResponseView {
    Pong,
    TaskState { task_state: TaskState },
    TaskIP { task_ip: Seq<char> },
    TaskName { task_name: Seq<char> },
    TaskNameWithId { task_name: Option<Seq<char>> },
    UpdateTaskState,
    UpdateTaskInfo,
    UpdateTaskNodeName,
    UpdateTaskLastUpdate,
    StartTask,
    RestartTask,
    RemoveTask,
    GetIsRestartableTask { is_restartable_task: bool },
    GetRequestedTasks { requested_tasks: Seq<TaskView> },
    GetRunningTasks { running_tasks: Seq<TaskView> },
    GetRestartTasks { restart_tasks: Seq<TaskView> },
    AddNode,
    GetIsNodeActive { is_active: bool },
    UpdateNode,
    SetNodeInactive,
    GetNodes { nodes: Seq<NodeView> },
    GetNode { node: NodeView },
    NodeNotFound,
}

impl View for StateResponseMsg {
    type V = ResponseView;

    open spec fn view(&self) -> ResponseView {
        match *self {
            StateResponseMsg::Pong => ResponseView::Pong,
            StateResponseMsg::TaskState { task_state } => ResponseView::TaskState {
                task_state: task_state,
            },
            StateResponseMsg::TaskIP { task_ip } => ResponseView::TaskIP { task_ip: task_ip@ },
            StateResponseMsg::TaskName { task_name } => ResponseView::TaskName {
                task_name: task_name@,
            },
            StateResponseMsg::TaskNameWithId { task_name } => ResponseView::TaskNameWithId {
                task_name: match task_name {
                    Some(name) => Some(name@),
                    None => None,
                },
            },
            StateResponseMsg::UpdateTaskState => ResponseView::UpdateTaskState,
            StateResponseMsg::UpdateTaskInfo => ResponseView::UpdateTaskInfo,
            StateResponseMsg::UpdateTaskNodeName => ResponseView::UpdateTaskNodeName,
            StateResponseMsg::UpdateTaskLastUpdate => ResponseView::UpdateTaskLastUpdate,
            StateResponseMsg::StartTask => ResponseView::StartTask,
            StateResponseMsg::RestartTask => ResponseView::RestartTask,
            StateResponseMsg::RemoveTask => ResponseView::RemoveTask,
            StateResponseMsg::GetIsRestartableTask { is_restartable_task } => {
                ResponseView::GetIsRestartableTask { is_restartable_task: is_restartable_task }
            },
            StateResponseMsg::GetRequestedTasks { requested_tasks } => {
                ResponseView::GetRequestedTasks { requested_tasks: tasks_view(requested_tasks@) }
            },
            StateResponseMsg::GetRunningTasks { running_tasks } => ResponseView::GetRunningTasks {
                running_tasks: tasks_view(running_tasks@),
            },
            StateResponseMsg::GetRestartTasks { restart_tasks } => ResponseView::GetRestartTasks {
                restart_tasks: tasks_view(restart_tasks@),
            },
            StateResponseMsg::AddNode => ResponseView::AddNode,
            StateResponseMsg::GetIsNodeActive { is_active } => ResponseView::GetIsNodeActive {
                is_active: is_active,
            },
            StateResponseMsg::UpdateNode => ResponseView::UpdateNode,
            StateResponseMsg::SetNodeInactive => ResponseView::SetNodeInactive,
            StateResponseMsg::GetNodes { nodes } => ResponseView::GetNodes {
                nodes: nodes_view(nodes@),
            },
            StateResponseMsg::GetNode { node } => ResponseView::GetNode { node: node@ },
            StateResponseMsg::NodeNotFound => ResponseView::NodeNotFound,
        }
    }
}

} // verus!
