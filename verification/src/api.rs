//! What the administrative requests decide: which argument a query
//! carries, which tasks a listing shows, and what a request asks of the
//! state manager.

use vstd::prelude::*;
use vstd::string::{StrSliceExecFns, StringExecFns};
use crate::clock::utc_now;
use crate::config::text_view;
use crate::manager::{ManagerView, StateManager};
use crate::node_list;
use crate::state::StateView;
use crate::task::{Task, TaskState, TaskView};
use crate::task_list;
use crate::task_list::tasks_view;
use crate::text::starts_with;

verus! {

/// The argument of a query that consists of `key` and the argument: what
/// follows `key`, where the query begins with `key` and more follows.
pub open spec fn query_argument(query: Seq<char>, key: Seq<char>) -> Option<Seq<char>> {
    if key.is_prefix_of(query) && query.len() > key.len() {
        Some(query.subrange(key.len() as int, query.len() as int))
    } else {
        None
    }
}

/// The argument that `query` carries behind `key`, such as the name in
/// `name=web`.
pub fn query_value(query: &str, key: &str) -> (r: Option<String>)
    ensures
        text_view(r) == query_argument(query@, key@),
{
    if !starts_with(query, key) {
        return None;
    }
    let from = key.unicode_len();
    let to = query.unicode_len();
    if from >= to {
        return None;
    }
    Some(String::from_str(query.substring_char(from, to)))
}

/// The metered tasks among `tasks`, in order.
pub open spec fn metered(tasks: Seq<TaskView>) -> Seq<TaskView> {
    tasks.filter(|t: TaskView| t.is_metered)
}

/// The tasks among `tasks` that are no jobs, in order.
pub open spec fn services(tasks: Seq<TaskView>) -> Seq<TaskView> {
    tasks.filter(|t: TaskView| !t.is_job)
}

/// Copies of the metered tasks among `tasks`, in order.
pub fn metered_tasks(tasks: &Vec<Task>) -> (r: Vec<Task>)
    ensures
        tasks_view(r@) == metered(tasks_view(tasks@)),
{
    let mut out: Vec<Task> = Vec::new();
    let ghost all = tasks_view(tasks@);
    let ghost pred = |t: TaskView| t.is_metered;
    let mut i: usize = 0;
    proof {
        assert(all.take(0) =~= Seq::<TaskView>::empty());
        assert(tasks_view(out@) =~= Seq::<TaskView>::empty());
        reveal_with_fuel(Seq::filter, 1);
    }
    while i < tasks.len()
        invariant
            i <= tasks@.len(),
            all == tasks_view(tasks@),
            pred == (|t: TaskView| t.is_metered),
            tasks_view(out@) == all.take(i as int).filter(pred),
        decreases tasks@.len() - i,
    {
        proof {
            all.lemma_take_succ_push(i as int);
            all.take(i as int).lemma_filter_push(all[i as int], pred);
        }
        if tasks[i].is_metered {
            let ghost before = tasks_view(out@);
            out.push(tasks[i].snapshot());
            assert(tasks_view(out@) =~= before.push(all[i as int]));
        }
        i += 1;
    }
    proof {
        all.lemma_take_len();
    }
    out
}

/// Copies of the tasks among `tasks` that are no jobs, in order.
pub fn service_tasks(tasks: &Vec<Task>) -> (r: Vec<Task>)
    ensures
        tasks_view(r@) == services(tasks_view(tasks@)),
{
    let mut out: Vec<Task> = Vec::new();
    let ghost all = tasks_view(tasks@);
    let ghost pred = |t: TaskView| !t.is_job;
    let mut i: usize = 0;
    proof {
        assert(all.take(0) =~= Seq::<TaskView>::empty());
        assert(tasks_view(out@) =~= Seq::<TaskView>::empty());
        reveal_with_fuel(Seq::filter, 1);
    }
    while i < tasks.len()
        invariant
            i <= tasks@.len(),
            all == tasks_view(tasks@),
            pred == (|t: TaskView| !t.is_job),
            tasks_view(out@) == all.take(i as int).filter(pred),
        decreases tasks@.len() - i,
    {
        proof {
            all.lemma_take_succ_push(i as int);
            all.take(i as int).lemma_filter_push(all[i as int], pred);
        }
        if !tasks[i].is_job {
            let ghost before = tasks_view(out@);
            out.push(tasks[i].snapshot());
            assert(tasks_view(out@) =~= before.push(all[i as int]));
        }
        i += 1;
    }
    proof {
        all.lemma_take_len();
    }
    out
}

/// A request to the power proxy for one node.
#[derive(Clone, Debug)]
pub struct PowerRequest {
    pub proxy: String,
    pub management_ip: String,
}

/// A group of services that are started together.
#[derive(Clone, Debug)]
pub struct ServiceGroup {
    pub name: String,
    pub services: Vec<Task>,
}

/// Mathematical value of a [`ServiceGroup`].
pub struct ServiceGroupView {
    pub name: Seq<char>,
    pub services: Seq<TaskView>,
}

impl View for ServiceGroup {
    type V = ServiceGroupView;

    open spec fn view(&self) -> ServiceGroupView {
        ServiceGroupView { name: self.name@, services: tasks_view(self.services@) }
    }
}

/// The values of a sequence of groups, in order.
pub open spec fn groups_view(groups: Seq<ServiceGroup>) -> Seq<ServiceGroupView> {
    Seq::new(groups.len(), |i: int| groups[i]@)
}

/// The services of the groups named `name`, group after group in the
/// order of `groups`.
pub open spec fn services_of_groups(groups: Seq<ServiceGroupView>, name: Seq<char>) -> Seq<
    TaskView,
>
    decreases groups.len(),
{
    if groups.len() == 0 {
        Seq::empty()
    } else if groups.last().name == name {
        services_of_groups(groups.drop_last(), name) + groups.last().services
    } else {
        services_of_groups(groups.drop_last(), name)
    }
}

/// The task table after the query `name=...` of a request to start a
/// group was served at the time `now`: the services of the groups of that
/// name are requested; a query that names no group changes nothing.
pub open spec fn named_groups_started(
    tasks: Seq<TaskView>,
    my_name: Seq<char>,
    groups: Seq<ServiceGroupView>,
    query: Seq<char>,
    now: i64,
) -> Seq<TaskView> {
    match query_argument(query, "name="@) {
        Some(name) => group_started(tasks, my_name, services_of_groups(groups, name), now),
        None => tasks,
    }
}

/// Starting the services of `first` and then those of `second` is
/// starting those of the two together.
pub proof fn lemma_group_started_in_turn(
    tasks: Seq<TaskView>,
    my_name: Seq<char>,
    first: Seq<TaskView>,
    second: Seq<TaskView>,
    now: i64,
)
    ensures
        group_started(tasks, my_name, first + second, now) == group_started(
            group_started(tasks, my_name, first, now),
            my_name,
            second,
            now,
        ),
    decreases second.len(),
{
    if second.len() == 0 {
        assert(first + second =~= first);
    } else {
        lemma_group_started_in_turn(tasks, my_name, first, second.drop_last(), now);
        assert((first + second).drop_last() =~= first + second.drop_last());
        assert((first + second).last() == second.last());
    }
}

/// The task table after the services of a group were requested one after
/// the other at the time `now`: each as a task of this controller, in
/// state `Requested` and not yet placed, and none as a system service.
pub open spec fn group_started(
    tasks: Seq<TaskView>,
    my_name: Seq<char>,
    group: Seq<TaskView>,
    now: i64,
) -> Seq<TaskView>
    decreases group.len(),
{
    if group.len() == 0 {
        tasks
    } else {
        task_list::inserted(
            group_started(tasks, my_name, group.drop_last(), now),
            group_task(my_name, group.last(), now),
        )
    }
}

/// The task that a group's description `service` is started as.
pub open spec fn group_task(my_name: Seq<char>, service: TaskView, now: i64) -> TaskView {
    TaskView {
        id: Seq::empty(),
        controller: my_name,
        is_system_service: false,
        ip: Seq::empty(),
        slave_id: Seq::empty(),
        state: TaskState::Requested,
        last_update: now,
        ..service
    }
}

impl StateManager {
    /// Copies of the running tasks that are metered, in table order.
    pub fn services_metered(&mut self) -> (r: Vec<Task>)
        requires
            old(self).wf(),
        ensures
            final(self).wf(),
            final(self)@ == old(self)@,
            tasks_view(r@) == metered(
                task_list::in_state(old(self)@.state.tasks, TaskState::Running),
            ),
    {
        let running = self.request_list_running_tasks();
        metered_tasks(&running)
    }

    /// Copies of the running tasks that are no jobs, in table order.
    pub fn services_running(&mut self) -> (r: Vec<Task>)
        requires
            old(self).wf(),
        ensures
            final(self).wf(),
            final(self)@ == old(self)@,
            tasks_view(r@) == services(
                task_list::in_state(old(self)@.state.tasks, TaskState::Running),
            ),
    {
        let running = self.request_list_running_tasks();
        service_tasks(&running)
    }

    /// Name of the task whose id the query `id=...` gives; empty where the
    /// query gives none or no task has such an id.
    pub fn service_name(&mut self, query: &str) -> (r: String)
        requires
            old(self).wf(),
        ensures
            final(self).wf(),
            final(self)@ == old(self)@,
            r@ == match query_argument(query@, "id="@) {
                Some(id) => task_list::name_by_id(old(self)@.state.tasks, id),
                None => Seq::empty(),
            },
    {
        match query_value(query, "id=") {
            Some(id) => self.request_task_name_by_id(id),
            None => String::new(),
        }
    }

    /// The request to the power proxy for the node that the query
    /// `name=...` names; `None` where the query names no known node.
    pub fn power_request(&mut self, query: &str) -> (r: Option<PowerRequest>)
        requires
            old(self).wf(),
        ensures
            final(self).wf(),
            final(self)@ == old(self)@,
            match r {
                Some(request) => query_argument(query@, "name="@).is_some() && match node_list::lookup(
                    old(self)@.state.nodes,
                    query_argument(query@, "name="@).unwrap(),
                ) {
                    Some(node) => request.proxy@ == old(self)@.ipmi_proxy && request.management_ip@
                        == node.management_ip,
                    None => false,
                },
                None => query_argument(query@, "name="@).is_none() || node_list::lookup(
                    old(self)@.state.nodes,
                    query_argument(query@, "name="@).unwrap(),
                ).is_none(),
            },
    {
        match query_value(query, "name=") {
            Some(name) => match self.request_node(name) {
                Some(node) => Some(
                    PowerRequest { proxy: self.get_ipmi_proxy(), management_ip: node.management_ip },
                ),
                None => None,
            },
            None => None,
        }
    }

    /// Requests the services of a group at the time `now`, in order: each
    /// as `send_start_task` requests it, and none as a system service.
    pub fn start_service_group_at(&mut self, group: &Vec<Task>, now: i64)
        requires
            old(self).wf(),
        ensures
            final(self).wf(),
            final(self)@.state.tasks == group_started(
                old(self)@.state.tasks,
                old(self)@.state.my_name,
                tasks_view(group@),
                now,
            ),
            final(self)@ == (ManagerView {
                state: StateView { tasks: final(self)@.state.tasks, ..old(self)@.state },
                ..old(self)@
            }),
    {
        let ghost all = tasks_view(group@);
        let mut i: usize = 0;
        proof {
            assert(all.take(0) =~= Seq::<TaskView>::empty());
        }
        while i < group.len()
            invariant
                i <= group@.len(),
                self.wf(),
                all == tasks_view(group@),
                self@.state.tasks == group_started(
                    old(self)@.state.tasks,
                    old(self)@.state.my_name,
                    all.take(i as int),
                    now,
                ),
                self@ == (ManagerView {
                    state: StateView { tasks: self@.state.tasks, ..old(self)@.state },
                    ..old(self)@
                }),
            decreases group@.len() - i,
        {
            proof {
                assert(all.take(i + 1).drop_last() =~= all.take(i as int));
                assert(all.take(i + 1).last() == group@[i as int]@);
            }
            let task = &group[i];
            self.start_task_at(
                &task.name,
                &task.image,
                &task.node_name,
                &task.node_type,
                &task.node_function,
                &task.dependent_service,
                &task.arguments,
                &task.parameters,
                &task.memory,
                &task.cpu,
                &task.volumes,
                &task.privileged,
                &task.sla,
                &task.is_metered,
                &false,
                &task.is_job,
                &task.network_type,
                now,
            );
            i += 1;
        }
        proof {
            assert(all.take(group@.len() as int) =~= all);
        }
    }

    /// Serves the query `name=...` of a request to start a group at the
    /// time `now`: requests the services of every group of that name, in
    /// the order of `groups`.
    pub fn start_named_groups_at(&mut self, groups: &Vec<ServiceGroup>, query: &str, now: i64)
        requires
            old(self).wf(),
        ensures
            final(self).wf(),
            final(self)@.state.tasks == named_groups_started(
                old(self)@.state.tasks,
                old(self)@.state.my_name,
                groups_view(groups@),
                query@,
                now,
            ),
            final(self)@ == (ManagerView {
                state: StateView { tasks: final(self)@.state.tasks, ..old(self)@.state },
                ..old(self)@
            }),
    {
        match query_value(query, "name=") {
            Some(name) => {
                let ghost all = groups_view(groups@);
                let mut i: usize = 0;
                proof {
                    assert(all.take(0) =~= Seq::<ServiceGroupView>::empty());
                }
                while i < groups.len()
                    invariant
                        i <= groups@.len(),
                        self.wf(),
                        all == groups_view(groups@),
                        self@.state.tasks == group_started(
                            old(self)@.state.tasks,
                            old(self)@.state.my_name,
                            services_of_groups(all.take(i as int), name@),
                            now,
                        ),
                        self@ == (ManagerView {
                            state: StateView { tasks: self@.state.tasks, ..old(self)@.state },
                            ..old(self)@
                        }),
                    decreases groups@.len() - i,
                {
                    proof {
                        assert(all.take(i + 1).drop_last() =~= all.take(i as int));
                        assert(all.take(i + 1).last() == groups@[i as int]@);
                        lemma_group_started_in_turn(
                            old(self)@.state.tasks,
                            old(self)@.state.my_name,
                            services_of_groups(all.take(i as int), name@),
                            groups@[i as int]@.services,
                            now,
                        );
                    }
                    if groups[i].name == name {
                        self.start_service_group_at(&groups[i].services, now);
                    }
                    i += 1;
                }
                proof {
                    assert(all.take(groups@.len() as int) =~= all);
                }
            },
            None => {},
        }
    }

    /// Serves the query `name=...` of a request to start a group at the
    /// current time.
    pub fn start_named_groups(&mut self, groups: &Vec<ServiceGroup>, query: &str)
        requires
            old(self).wf(),
        ensures
            final(self).wf(),
            exists|now: i64|
                final(self)@.state.tasks == #[trigger] named_groups_started(
                    old(self)@.state.tasks,
                    old(self)@.state.my_name,
                    groups_view(groups@),
                    query@,
                    now,
                ),
            final(self)@ == (ManagerView {
                state: StateView { tasks: final(self)@.state.tasks, ..old(self)@.state },
                ..old(self)@
            }),
    {
        let now = utc_now();
        self.start_named_groups_at(groups, query, now);
    }

    /// Requests the services of a group at the current time.
    pub fn start_service_group(&mut self, group: &Vec<Task>)
        requires
            old(self).wf(),
        ensures
            final(self).wf(),
            exists|now: i64|
                final(self)@.state.tasks == #[trigger] group_started(
                    old(self)@.state.tasks,
                    old(self)@.state.my_name,
                    tasks_view(group@),
                    now,
                ),
            final(self)@ == (ManagerView {
                state: StateView { tasks: final(self)@.state.tasks, ..old(self)@.state },
                ..old(self)@
            }),
    {
        let now = utc_now();
        self.start_service_group_at(group, now);
    }
}

} // verus!
