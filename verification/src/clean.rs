//! The clean tick: expired replicas of other controllers' tasks leave the
//! table and lose their routes, due restarts are requested again, and
//! stale nodes are marked inactive, in this order.

use vstd::prelude::*;
use crate::clock::utc_now;
use crate::manager::{ManagerView, StateManager};
use crate::network_agent::{
    agent_of, delete_route, delete_route_plan, host_route, planned, routes_view, Agent,
    RouteCommand, RouteCommandView, RouteOp,
};
use crate::node::NodeView;
use crate::node_list;
use crate::state::StateView;
use crate::table::{lemma_first_index, lemma_first_index_is};
use crate::task::{Task, TaskState, TaskView};
use crate::task_list;
use crate::task_list::tasks_view;

verus! {

/// The commands that remove the routes to the ips of `gone`, one task
/// after the other. A task without an ip has no route to remove.
pub open spec fn route_removals(
    agent_type: Seq<char>,
    connection: Seq<char>,
    gone: Seq<TaskView>,
) -> Seq<RouteCommandView>
    decreases gone.len(),
{
    if gone.len() == 0 {
        Seq::empty()
    } else {
        route_removals(agent_type, connection, gone.drop_last()) + planned(
            delete_route_plan(agent_type, connection, gone.last().ip),
        )
    }
}

/// The task table after a clean tick at the time `now`.
pub open spec fn cleaned_tasks(
    tasks: Seq<TaskView>,
    my_name: Seq<char>,
    timeout: i64,
    restart_delay: i64,
    now: i64,
) -> Seq<TaskView> {
    task_list::promoted(
        task_list::without_expired_foreign(tasks, my_name, timeout, now),
        my_name,
        restart_delay,
        now,
    )
}

/// The manager after a clean tick at the time `now`.
pub open spec fn cleaned(m: ManagerView, timeout: i64, restart_delay: i64, now: i64) -> ManagerView {
    ManagerView {
        state: StateView {
            tasks: cleaned_tasks(m.state.tasks, m.state.my_name, timeout, restart_delay, now),
            nodes: node_list::retired(m.state.nodes, timeout, now),
            ..m.state
        },
        ..m
    }
}

/// The route commands of a clean tick at the time `now`: the removals of
/// the routes to the expired replicas, in table order.
pub open spec fn clean_routes(m: ManagerView, timeout: i64, now: i64) -> Seq<RouteCommandView> {
    route_removals(
        m.network_agent_type,
        m.network_agent_connection,
        task_list::expired_foreign(m.state.tasks, m.state.my_name, timeout, now),
    )
}

/// The commands that remove the routes to the ips of `gone`.
pub fn remove_routes(agent_type: &String, connection: &String, gone: &Vec<Task>) -> (r: Vec<
    RouteCommand,
>)
    ensures
        routes_view(r@) == route_removals(agent_type@, connection@, tasks_view(gone@)),
{
    let mut routes: Vec<RouteCommand> = Vec::new();
    let ghost all = tasks_view(gone@);
    let mut i: usize = 0;
    proof {
        assert(all.take(0) =~= Seq::<TaskView>::empty());
        assert(routes_view(routes@) =~= Seq::<RouteCommandView>::empty());
    }
    while i < gone.len()
        invariant
            i <= gone@.len(),
            all == tasks_view(gone@),
            routes_view(routes@) == route_removals(agent_type@, connection@, all.take(i as int)),
        decreases gone@.len() - i,
    {
        proof {
            assert(all.take(i + 1).drop_last() =~= all.take(i as int));
            assert(all.take(i + 1).last() == gone@[i as int]@);
        }
        let ghost before = routes_view(routes@);
        match delete_route(agent_type, connection, &gone[i].ip) {
            Some(command) => {
                routes.push(command);
            },
            None => {},
        }
        assert(routes_view(routes@) =~= before + planned(
            delete_route_plan(agent_type@, connection@, gone@[i as int]@.ip),
        ));
        i += 1;
    }
    proof {
        assert(all.take(gone@.len() as int) =~= all);
    }
    routes
}

impl StateManager {
    /// One clean tick at the time `now`. The result holds the route
    /// commands to send, in order.
    pub fn clean_tick_at(&mut self, timeout: i64, restart_delay: i64, now: i64) -> (r: Vec<
        RouteCommand,
    >)
        requires
            old(self).wf(),
        ensures
            final(self).wf(),
            final(self)@ == cleaned(old(self)@, timeout, restart_delay, now),
            routes_view(r@) == clean_routes(old(self)@, timeout, now),
    {
        let my_name = self.state.my_name.clone();
        let gone = self.state.task_list.remove_expired_foreign(&my_name, timeout, now);
        let routes = remove_routes(&self.network_agent_type, &self.network_agent_connection, &gone);
        self.state.task_list.promote_due_restarts(&my_name, restart_delay, now);
        self.state.node_list.deactivate_stale(timeout, now);
        routes
    }

    /// One clean tick at the current time.
    pub fn clean_tick(&mut self, timeout: i64, restart_delay: i64) -> (r: Vec<RouteCommand>)
        requires
            old(self).wf(),
        ensures
            final(self).wf(),
            exists|now: i64|
                final(self)@ == #[trigger] cleaned(old(self)@, timeout, restart_delay, now)
                    && routes_view(r@) == clean_routes(old(self)@, timeout, now),
    {
        let now = utc_now();
        self.clean_tick_at(timeout, restart_delay, now)
    }
}

/// In a table with unique names the record at index `i` is the record of
/// its name.
pub proof fn lemma_lookup_at(tasks: Seq<TaskView>, i: int)
    requires
        task_list::names_unique(tasks),
        0 <= i < tasks.len(),
    ensures
        task_list::position(tasks, tasks[i].name) == i,
        task_list::lookup(tasks, tasks[i].name) == Some(tasks[i]),
{
    let pred = |t: TaskView| t.name == tasks[i].name;
    assert forall|j: int| 0 <= j < i implies !pred(#[trigger] tasks[j]) by {
        assert(tasks[j].name != tasks[i].name);
    }
    lemma_first_index_is(tasks, pred, i);
}

/// Every running task of another controller that is in the table at the
/// tick and was last updated more than `timeout` seconds before `now` is
/// absent after the tick, and is one of the tasks whose routes the tick
/// removes, among which no name occurs twice.
pub proof fn lemma_clean_expires(
    tasks: Seq<TaskView>,
    my_name: Seq<char>,
    timeout: i64,
    restart_delay: i64,
    now: i64,
    i: int,
)
    requires
        task_list::names_unique(tasks),
        0 <= i < tasks.len(),
        tasks[i].state == TaskState::Running,
        tasks[i].controller != my_name,
        tasks[i].last_update + timeout < now,
    ensures
        task_list::lookup(
            cleaned_tasks(tasks, my_name, timeout, restart_delay, now),
            tasks[i].name,
        ).is_none(),
        task_list::expired_foreign(tasks, my_name, timeout, now).contains(tasks[i]),
        task_list::names_unique(task_list::expired_foreign(tasks, my_name, timeout, now)),
{
    let stays = |t: TaskView| !task_list::is_expired_foreign(t, my_name, timeout, now);
    let leaves = |t: TaskView| task_list::is_expired_foreign(t, my_name, timeout, now);
    let kept = tasks.filter(stays);
    lemma_lookup_at(tasks, i);
    task_list::lemma_filtered(tasks, stays);
    assert(task_list::lookup(kept, tasks[i].name).is_none());
    let after = task_list::promoted(kept, my_name, restart_delay, now);
    task_list::lemma_same_names(kept, after);
    assert(task_list::position(after, tasks[i].name) == task_list::position(kept, tasks[i].name));
    tasks.lemma_filter_contains(leaves, i);
    task_list::lemma_filtered(tasks, leaves);
}

/// The command that removes the host route to `ip` at the agent `agent`.
pub open spec fn removal(agent: Agent, connection: Seq<char>, ip: Seq<char>) -> RouteCommandView {
    RouteCommandView {
        agent: agent,
        op: RouteOp::DeleteRoute,
        connection: connection,
        route_to: host_route(ip),
        route_via: Seq::empty(),
    }
}

/// For every task of `gone` one removal is called for, that of the route
/// to the task's ip, in the order of `gone`. A removal for an empty ip
/// sends nothing, and with an unknown agent no removal sends anything: so
/// the commands are, with a known agent, exactly one for each task of
/// `gone` that has an ip, and with an unknown agent none.
pub proof fn lemma_removals(agent_type: Seq<char>, connection: Seq<char>, gone: Seq<TaskView>)
    ensures
        agent_of(agent_type).is_none() ==> route_removals(agent_type, connection, gone)
            == Seq::<RouteCommandView>::empty(),
        agent_of(agent_type).is_some() ==> route_removals(agent_type, connection, gone)
            == gone.filter(|t: TaskView| t.ip.len() > 0).map_values(
            |t: TaskView| removal(agent_of(agent_type).unwrap(), connection, t.ip),
        ),
    decreases gone.len(),
{
    reveal(Seq::filter);
    let has_ip = |t: TaskView| t.ip.len() > 0;
    if gone.len() > 0 {
        let init = gone.drop_last();
        lemma_removals(agent_type, connection, init);
        if agent_of(agent_type).is_some() {
            let agent = agent_of(agent_type).unwrap();
            let command = |t: TaskView| removal(agent, connection, t.ip);
            if has_ip(gone.last()) {
                assert(gone.filter(has_ip) == init.filter(has_ip).push(gone.last()));
                assert(init.filter(has_ip).push(gone.last()).map_values(command)
                    =~= init.filter(has_ip).map_values(command).push(command(gone.last())));
                assert(route_removals(agent_type, connection, gone) =~= route_removals(
                    agent_type,
                    connection,
                    init,
                ).push(command(gone.last())));
            } else {
                assert(route_removals(agent_type, connection, gone) =~= route_removals(
                    agent_type,
                    connection,
                    init,
                ));
            }
        } else {
            assert(route_removals(agent_type, connection, gone) =~= route_removals(
                agent_type,
                connection,
                init,
            ));
        }
    } else {
        assert(gone.filter(has_ip).map_values(
            |t: TaskView| removal(agent_of(agent_type).unwrap(), connection, t.ip),
        ) =~= Seq::<RouteCommandView>::empty());
    }
}

/// Where the agent is known and every task of `gone` has an ip, the
/// removals hold exactly one command for each task of `gone`, in order:
/// the removal of the host route to its ip.
pub proof fn lemma_one_removal_each(
    agent_type: Seq<char>,
    connection: Seq<char>,
    gone: Seq<TaskView>,
)
    requires
        agent_of(agent_type).is_some(),
        forall|k: int| 0 <= k < gone.len() ==> (#[trigger] gone[k]).ip.len() > 0,
    ensures
        route_removals(agent_type, connection, gone).len() == gone.len(),
        forall|k: int|
            0 <= k < gone.len() ==> Some(
                #[trigger] route_removals(agent_type, connection, gone)[k],
            ) == delete_route_plan(agent_type, connection, gone[k].ip),
    decreases gone.len(),
{
    if gone.len() > 0 {
        let init = gone.drop_last();
        assert forall|k: int| 0 <= k < init.len() implies (#[trigger] init[k]).ip.len() > 0 by {
            assert(init[k] == gone[k]);
        }
        lemma_one_removal_each(agent_type, connection, init);
        assert(gone.last() == gone[gone.len() - 1]);
        assert forall|k: int| 0 <= k < gone.len() implies Some(
            #[trigger] route_removals(agent_type, connection, gone)[k],
        ) == delete_route_plan(agent_type, connection, gone[k].ip) by {
            if k < init.len() {
                assert(init[k] == gone[k]);
                assert(route_removals(agent_type, connection, gone)[k] == route_removals(
                    agent_type,
                    connection,
                    init,
                )[k]);
            }
        }
    }
}

/// Every task of this controller that is in state `Restart` at the tick
/// and was last updated more than `restart_delay` seconds before `now` is
/// in state `Requested` after the tick, and is otherwise as it was.
pub proof fn lemma_clean_promotes(
    tasks: Seq<TaskView>,
    my_name: Seq<char>,
    timeout: i64,
    restart_delay: i64,
    now: i64,
    i: int,
)
    requires
        task_list::names_unique(tasks),
        0 <= i < tasks.len(),
        tasks[i].state == TaskState::Restart,
        tasks[i].controller == my_name,
        tasks[i].last_update + restart_delay < now,
    ensures
        task_list::lookup(cleaned_tasks(tasks, my_name, timeout, restart_delay, now), tasks[i].name)
            == Some(TaskView { state: TaskState::Requested, ..tasks[i] }),
{
    let stays = |t: TaskView| !task_list::is_expired_foreign(t, my_name, timeout, now);
    let kept = tasks.filter(stays);
    lemma_lookup_at(tasks, i);
    task_list::lemma_filtered(tasks, stays);
    assert(task_list::lookup(kept, tasks[i].name) == Some(tasks[i]));
    let after = task_list::promoted(kept, my_name, restart_delay, now);
    task_list::lemma_same_names(kept, after);
    let p = task_list::position(kept, tasks[i].name);
    lemma_first_index(kept, |t: TaskView| t.name == tasks[i].name);
    assert(task_list::position(after, tasks[i].name) == p);
    assert(after[p] == task_list::promoted_task(kept[p], my_name, restart_delay, now));
}

/// A clean tick removes no node: a node that the table holds at the tick
/// is in it after the tick, changed at most in that it is inactive.
pub proof fn lemma_clean_keeps_nodes(nodes: Seq<NodeView>, timeout: i64, now: i64, name: Seq<char>)
    requires
        node_list::names_unique(nodes),
        node_list::lookup(nodes, name).is_some(),
    ensures
        node_list::names_unique(node_list::retired(nodes, timeout, now)),
        node_list::lookup(node_list::retired(nodes, timeout, now), name) == Some(
            node_list::retired_node(node_list::lookup(nodes, name).unwrap(), timeout, now),
        ),
{
    let after = node_list::retired(nodes, timeout, now);
    node_list::lemma_same_names(nodes, after);
    lemma_first_index(nodes, |n: NodeView| n.name == name);
    assert(node_list::position(after, name) == node_list::position(nodes, name));
}

/// Every node that is active at the tick and was last seen more than
/// `timeout` seconds before `now` is inactive after the tick, and is
/// otherwise as it was.
pub proof fn lemma_clean_retires(nodes: Seq<NodeView>, timeout: i64, now: i64, i: int)
    requires
        node_list::names_unique(nodes),
        0 <= i < nodes.len(),
        nodes[i].active,
        nodes[i].last_seen + timeout < now,
    ensures
        node_list::lookup(node_list::retired(nodes, timeout, now), nodes[i].name) == Some(
            NodeView { active: false, ..nodes[i] },
        ),
{
    let pred = |n: NodeView| n.name == nodes[i].name;
    assert forall|j: int| 0 <= j < i implies !pred(#[trigger] nodes[j]) by {
        assert(nodes[j].name != nodes[i].name);
    }
    lemma_first_index_is(nodes, pred, i);
    let after = node_list::retired(nodes, timeout, now);
    node_list::lemma_same_names(nodes, after);
    assert(node_list::position(after, nodes[i].name) == i);
    assert(after[i] == node_list::retired_node(nodes[i], timeout, now));
}

} // verus!
