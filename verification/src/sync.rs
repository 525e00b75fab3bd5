//! The sync tick: every running task is registered again with the service
//! registry, and every running task of this controller is announced
//! again.

use vstd::prelude::*;
use crate::announce::{announce_routes, announced};
use crate::clock::utc_now;
use crate::consul::{
    register_running_task, registration, registrations_view, ServiceRegistration,
    ServiceRegistrationView,
};
use crate::manager::{ManagerView, StateManager};
use crate::network_agent::{routes_view, RouteCommand, RouteCommandView};
use crate::task::{TaskState, TaskView};
use crate::task_list;
use crate::task_list::tasks_view;

verus! {

/// The registrations of a sync tick: one for each running task, under its
/// name and ip, in table order.
pub open spec fn sync_registrations(
    master_ip: Seq<char>,
    running: Seq<TaskView>,
) -> Seq<ServiceRegistrationView> {
    Seq::new(running.len(), |i: int| registration(master_ip, running[i].name, running[i].ip))
}

/// The manager after the tasks of `running` that it owns were announced
/// to it, one after the other, at the time `now`.
pub open spec fn synced(m: ManagerView, running: Seq<TaskView>, now: i64) -> ManagerView
    decreases running.len(),
{
    if running.len() == 0 {
        m
    } else {
        let before = synced(m, running.drop_last(), now);
        if running.last().controller == m.state.my_name {
            announced(before, running.last(), now)
        } else {
            before
        }
    }
}

/// The route commands that those announcements call for, in order.
pub open spec fn sync_routes(m: ManagerView, running: Seq<TaskView>, now: i64) -> Seq<
    RouteCommandView,
>
    decreases running.len(),
{
    if running.len() == 0 {
        Seq::empty()
    } else {
        let before = synced(m, running.drop_last(), now);
        if running.last().controller == m.state.my_name {
            sync_routes(m, running.drop_last(), now) + announce_routes(before, running.last())
        } else {
            sync_routes(m, running.drop_last(), now)
        }
    }
}

impl StateManager {
    /// One sync tick at the time `now`. The result holds the
    /// registrations to make and the route commands to send, in order.
    pub fn sync_tick_at(&mut self, now: i64) -> (r: (Vec<ServiceRegistration>, Vec<RouteCommand>))
        requires
            old(self).wf(),
        ensures
            final(self).wf(),
            final(self)@ == synced(
                old(self)@,
                task_list::in_state(old(self)@.state.tasks, TaskState::Running),
                now,
            ),
            registrations_view(r.0@) == sync_registrations(
                old(self)@.state.master_ip,
                task_list::in_state(old(self)@.state.tasks, TaskState::Running),
            ),
            routes_view(r.1@) == sync_routes(
                old(self)@,
                task_list::in_state(old(self)@.state.tasks, TaskState::Running),
                now,
            ),
    {
        let running = self.request_list_running_tasks();
        let ghost all = tasks_view(running@);
        let mut registrations: Vec<ServiceRegistration> = Vec::new();
        let mut routes: Vec<RouteCommand> = Vec::new();
        let mut i: usize = 0;
        proof {
            assert(all.take(0) =~= Seq::<TaskView>::empty());
            assert(routes_view(routes@) =~= Seq::<RouteCommandView>::empty());
        }
        while i < running.len()
            invariant
                i <= running@.len(),
                self.wf(),
                all == tasks_view(running@),
                self@ == synced(old(self)@, all.take(i as int), now),
                self@.state.my_name == old(self)@.state.my_name,
                self@.state.master_ip == old(self)@.state.master_ip,
                routes_view(routes@) == sync_routes(old(self)@, all.take(i as int), now),
                registrations@.len() == i,
                forall|j: int|
                    0 <= j < i ==> (#[trigger] registrations@[j])@ == registration(
                        old(self)@.state.master_ip,
                        all[j].name,
                        all[j].ip,
                    ),
            decreases running@.len() - i,
        {
            proof {
                assert(all.take(i + 1).drop_last() =~= all.take(i as int));
                assert(all.take(i + 1).last() == running@[i as int]@);
            }
            registrations.push(register_running_task(&self.state.master_ip, &running[i]));
            if running[i].controller == self.state.my_name {
                let ghost before = routes_view(routes@);
                let mut more = self.announce_task_at(&running[i], now);
                let ghost added = routes_view(more@);
                routes.append(&mut more);
                assert(routes_view(routes@) =~= before + added);
            }
            i += 1;
        }
        proof {
            assert(all.take(running@.len() as int) =~= all);
            assert(registrations_view(registrations@) =~= sync_registrations(
                old(self)@.state.master_ip,
                all,
            ));
        }
        (registrations, routes)
    }

    /// One sync tick at the current time.
    pub fn sync_tick(&mut self) -> (r: (Vec<ServiceRegistration>, Vec<RouteCommand>))
        requires
            old(self).wf(),
        ensures
            final(self).wf(),
            registrations_view(r.0@) == sync_registrations(
                old(self)@.state.master_ip,
                task_list::in_state(old(self)@.state.tasks, TaskState::Running),
            ),
            exists|now: i64|
                final(self)@ == #[trigger] synced(
                    old(self)@,
                    task_list::in_state(old(self)@.state.tasks, TaskState::Running),
                    now,
                ) && routes_view(r.1@) == sync_routes(
                    old(self)@,
                    task_list::in_state(old(self)@.state.tasks, TaskState::Running),
                    now,
                ),
    {
        let now = utc_now();
        self.sync_tick_at(now)
    }
}

} // verus!
