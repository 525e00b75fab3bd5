//! Announcements: a controller tells this one about one of its tasks.
//! A task whose id the table knows is a heartbeat, which stamps the task
//! that holds the id; any other is a new replica, which is routed to and
//! inserted.
//!
//! The table knows an id where one of its tasks has exactly that id. An
//! empty id is never known. The lookup by a prefix of the id is for
//! queries, where an id is typed in part; here it would let the
//! announcement of one task pass for the heartbeat of another whose id
//! only begins alike.

use vstd::prelude::*;
use crate::clock::utc_now;
use crate::manager::{ManagerView, StateManager};
use crate::message::StateRequestMsg;
use crate::network_agent::{
    add_route, add_route_plan, delete_route, delete_route_plan, planned, routes_view,
    RouteCommand, RouteCommandView,
};
use crate::node_list;
use crate::state::{task_ip, StateView};
use crate::task::{Task, TaskView};
use crate::task_list;

verus! {

/// Whether the table knows the id of `task`: the id is not empty and a
/// task of the table has exactly that id.
pub open spec fn is_heartbeat(tasks: Seq<TaskView>, task: TaskView) -> bool {
    task_list::name_with_id(tasks, task.id).is_some()
}

/// The task table after `task` was announced at the time `now`: a
/// heartbeat stamps the task that holds the id, under whatever name the
/// table has it, and a new replica is inserted.
pub open spec fn announced_tasks(tasks: Seq<TaskView>, task: TaskView, now: i64) -> Seq<TaskView> {
    match task_list::name_with_id(tasks, task.id) {
        Some(holder) => task_list::with_last_update_set(tasks, holder, now),
        None => task_list::inserted(tasks, task),
    }
}

/// The manager after `task` was announced at the time `now`.
pub open spec fn announced(m: ManagerView, task: TaskView, now: i64) -> ManagerView {
    ManagerView {
        state: StateView { tasks: announced_tasks(m.state.tasks, task, now), ..m.state },
        ..m
    }
}

/// The route commands that the announcement of `task` calls for. A
/// heartbeat calls for none. A new replica calls for the route to its ip
/// via the external ip of its node, where the node is known, and then for
/// the removal of the route to the ip that a task of the same name had.
pub open spec fn announce_routes(m: ManagerView, task: TaskView) -> Seq<RouteCommandView> {
    if is_heartbeat(m.state.tasks, task) {
        Seq::empty()
    } else {
        (match node_list::lookup(m.state.nodes, task.node_name) {
            Some(node) => planned(
                add_route_plan(
                    m.network_agent_type,
                    m.network_agent_connection,
                    task.ip,
                    node.external_ip,
                ),
            ),
            None => Seq::empty(),
        }) + planned(
            delete_route_plan(
                m.network_agent_type,
                m.network_agent_connection,
                task_ip(m.state, task.name),
            ),
        )
    }
}

impl StateManager {
    /// Takes the announcement of `task` at the time `now` and gives the
    /// route commands to send, in order.
    pub fn announce_task_at(&mut self, task: &Task, now: i64) -> (r: Vec<RouteCommand>)
        requires
            old(self).wf(),
        ensures
            final(self).wf(),
            final(self)@ == announced(old(self)@, task@, now),
            routes_view(r@) == announce_routes(old(self)@, task@),
            is_heartbeat(old(self)@.state.tasks, task@) ==> r@.len() == 0,
    {
        let mut routes: Vec<RouteCommand> = Vec::new();
        match self.request_task_name_with_id(task.id.clone()) {
            Some(holder) => {
                let _ = self.ask(StateRequestMsg::UpdateTaskLastUpdate { task_name: holder }, now);
                assert(routes_view(routes@) =~= announce_routes(old(self)@, task@));
                return routes;
            },
            None => {},
        }
        let ghost mut first = Seq::<RouteCommandView>::empty();
        match self.request_node(task.node_name.clone()) {
            Some(node) => {
                match add_route(
                    &self.network_agent_type,
                    &self.network_agent_connection,
                    &task.ip,
                    &node.external_ip,
                ) {
                    Some(command) => {
                        routes.push(command);
                    },
                    None => {},
                }
                proof {
                    first =
                    planned(
                        add_route_plan(
                            self@.network_agent_type,
                            self@.network_agent_connection,
                            task@.ip,
                            node@.external_ip,
                        ),
                    );
                }
            },
            None => {},
        }
        assert(routes_view(routes@) =~= first);
        // A task of the same name may still be there with another ip.
        let ip = self.request_task_ip(task.name.clone());
        match delete_route(&self.network_agent_type, &self.network_agent_connection, &ip) {
            Some(command) => {
                routes.push(command);
            },
            None => {},
        }
        assert(routes_view(routes@) =~= first + planned(
            delete_route_plan(
                old(self)@.network_agent_type,
                old(self)@.network_agent_connection,
                task_ip(old(self)@.state, task@.name),
            ),
        ));
        self.start_task(task.snapshot());
        routes
    }

    /// Takes the announcement of `task` at the current time and gives
    /// the route commands to send, in order.
    pub fn send_announce_task(&mut self, task: &Task) -> (r: Vec<RouteCommand>)
        requires
            old(self).wf(),
        ensures
            final(self).wf(),
            exists|now: i64| final(self)@ == #[trigger] announced(old(self)@, task@, now),
            routes_view(r@) == announce_routes(old(self)@, task@),
    {
        let now = utc_now();
        self.announce_task_at(task, now)
    }
}

/// A heartbeat stamps the task that holds the announced id with `now`
/// and changes nothing else: every record keeps its place, and its name,
/// id, ip, state and all other fields; no record is added, whatever name
/// the announced task carries.
pub proof fn lemma_heartbeat_keeps_tasks(tasks: Seq<TaskView>, task: TaskView, now: i64)
    requires
        task_list::names_unique(tasks),
        is_heartbeat(tasks, task),
    ensures
        0 <= task_list::id_position(tasks, task.id) < tasks.len(),
        tasks[task_list::id_position(tasks, task.id)].id == task.id,
        announced_tasks(tasks, task, now) == tasks.update(
            task_list::id_position(tasks, task.id),
            TaskView { last_update: now, ..tasks[task_list::id_position(tasks, task.id)] },
        ),
        task_list::lookup(
            announced_tasks(tasks, task, now),
            tasks[task_list::id_position(tasks, task.id)].name,
        ) == Some(TaskView { last_update: now, ..tasks[task_list::id_position(tasks, task.id)] }),
        forall|other: Seq<char>|
            other != tasks[task_list::id_position(tasks, task.id)].name
                ==> #[trigger] task_list::lookup(announced_tasks(tasks, task, now), other)
                == task_list::lookup(tasks, other),
{
    let h = task_list::id_position(tasks, task.id);
    crate::table::lemma_first_index(tasks, |t: TaskView| t.id == task.id);
    let holder = tasks[h].name;
    let pred = |t: TaskView| t.name == holder;
    assert forall|j: int| 0 <= j < h implies !pred(#[trigger] tasks[j]) by {
        assert(tasks[j].name != tasks[h].name);
    }
    crate::table::lemma_first_index_is(tasks, pred, h);
    task_list::lemma_changed(tasks, holder, |t: TaskView| TaskView { last_update: now, ..t });
}

} // verus!
