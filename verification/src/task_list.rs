//! The task table: tasks keyed by unique name, kept in the order in which
//! their names were first inserted.

use vstd::prelude::*;
use crate::clock::{is_overdue, overdue};
use crate::table::{first_index, lemma_first_index, lemma_first_index_is};
use crate::task::{Task, TaskState, TaskView};
use crate::text::starts_with;

verus! {

/// No two records carry the same name.
pub open spec fn names_unique(tasks: Seq<TaskView>) -> bool {
    forall|i: int, j: int|
        0 <= i < j < tasks.len() ==> (#[trigger] tasks[i]).name != (#[trigger] tasks[j]).name
}

/// Index of the record named `name`, or the length of `tasks` where there
/// is none.
pub open spec fn position(tasks: Seq<TaskView>, name: Seq<char>) -> int {
    first_index(tasks, |t: TaskView| t.name == name)
}

/// The record named `name`, if the table holds one.
pub open spec fn lookup(tasks: Seq<TaskView>, name: Seq<char>) -> Option<TaskView> {
    let p = position(tasks, name);
    if p < tasks.len() {
        Some(tasks[p])
    } else {
        None
    }
}

/// The table after `task` was inserted: in the place of the record of the
/// same name where there is one, else at the end.
pub open spec fn inserted(tasks: Seq<TaskView>, task: TaskView) -> Seq<TaskView> {
    let p = position(tasks, task.name);
    if p < tasks.len() {
        tasks.update(p, task)
    } else {
        tasks.push(task)
    }
}

/// The table after the record named `name`, if any, was replaced by
/// `change` applied to it.
pub open spec fn changed(
    tasks: Seq<TaskView>,
    name: Seq<char>,
    change: spec_fn(TaskView) -> TaskView,
) -> Seq<TaskView> {
    let p = position(tasks, name);
    if p < tasks.len() {
        tasks.update(p, change(tasks[p]))
    } else {
        tasks
    }
}

/// The table after the state of the task named `name` was set.
pub open spec fn with_state_set(tasks: Seq<TaskView>, name: Seq<char>, state: TaskState) -> Seq<
    TaskView,
> {
    changed(tasks, name, |t: TaskView| TaskView { state: state, ..t })
}

/// The table after the runtime fields of the task named `name` were set.
pub open spec fn with_info_set(
    tasks: Seq<TaskView>,
    name: Seq<char>,
    id: Seq<char>,
    ip: Seq<char>,
    slave_id: Seq<char>,
) -> Seq<TaskView> {
    changed(tasks, name, |t: TaskView| TaskView { id: id, ip: ip, slave_id: slave_id, ..t })
}

/// The table after the node of the task named `name` was set.
pub open spec fn with_node_name_set(
    tasks: Seq<TaskView>,
    name: Seq<char>,
    node_name: Seq<char>,
) -> Seq<TaskView> {
    changed(tasks, name, |t: TaskView| TaskView { node_name: node_name, ..t })
}

/// The table after the task named `name` was stamped with the time `now`.
pub open spec fn with_last_update_set(tasks: Seq<TaskView>, name: Seq<char>, now: i64) -> Seq<
    TaskView,
> {
    changed(tasks, name, |t: TaskView| TaskView { last_update: now, ..t })
}

/// The table without the record named `name`.
pub open spec fn removed(tasks: Seq<TaskView>, name: Seq<char>) -> Seq<TaskView> {
    let p = position(tasks, name);
    if p < tasks.len() {
        tasks.remove(p)
    } else {
        tasks
    }
}

/// The records in state `state`, in table order.
pub open spec fn in_state(tasks: Seq<TaskView>, state: TaskState) -> Seq<TaskView> {
    tasks.filter(|t: TaskView| t.state == state)
}

/// Name of the first record, in table order, whose id begins with
/// `id_prefix`; empty where the prefix is empty or no id begins with it.
pub open spec fn name_by_id(tasks: Seq<TaskView>, id_prefix: Seq<char>) -> Seq<char> {
    let p = first_index(tasks, |t: TaskView| id_prefix.is_prefix_of(t.id));
    if id_prefix.len() > 0 && p < tasks.len() {
        tasks[p].name
    } else {
        Seq::empty()
    }
}

/// Whether `task` is a running replica of a task of another controller
/// that was last heard of more than `timeout` seconds before `now`.
pub open spec fn is_expired_foreign(
    task: TaskView,
    my_name: Seq<char>,
    timeout: i64,
    now: i64,
) -> bool {
    task.state == TaskState::Running && task.controller != my_name && is_overdue(
        task.last_update,
        timeout,
        now,
    )
}

/// The expired replicas among `tasks`, in table order.
pub open spec fn expired_foreign(
    tasks: Seq<TaskView>,
    my_name: Seq<char>,
    timeout: i64,
    now: i64,
) -> Seq<TaskView> {
    tasks.filter(|t: TaskView| is_expired_foreign(t, my_name, timeout, now))
}

/// The table without its expired replicas.
pub open spec fn without_expired_foreign(
    tasks: Seq<TaskView>,
    my_name: Seq<char>,
    timeout: i64,
    now: i64,
) -> Seq<TaskView> {
    tasks.filter(|t: TaskView| !is_expired_foreign(t, my_name, timeout, now))
}

/// Whether `task` is a task of this controller that was flagged for
/// restart more than `delay` seconds before `now`.
pub open spec fn is_due_restart(task: TaskView, my_name: Seq<char>, delay: i64, now: i64) -> bool {
    task.state == TaskState::Restart && task.controller == my_name && is_overdue(
        task.last_update,
        delay,
        now,
    )
}

/// `task`, requested again where its restart is due.
pub open spec fn promoted_task(
    task: TaskView,
    my_name: Seq<char>,
    delay: i64,
    now: i64,
) -> TaskView {
    if is_due_restart(task, my_name, delay, now) {
        TaskView { state: TaskState::Requested, ..task }
    } else {
        task
    }
}

/// The table after every due restart was requested again.
pub open spec fn promoted(tasks: Seq<TaskView>, my_name: Seq<char>, delay: i64, now: i64) -> Seq<
    TaskView,
> {
    Seq::new(tasks.len(), |i: int| promoted_task(tasks[i], my_name, delay, now))
}

/// Index of the first record, in table order, whose id is exactly `id`,
/// or the length of `tasks` where there is none.
pub open spec fn id_position(tasks: Seq<TaskView>, id: Seq<char>) -> int {
    first_index(tasks, |t: TaskView| t.id == id)
}

/// Name of the first record, in table order, whose id is exactly `id`;
/// none where `id` is empty or no record has it.
pub open spec fn name_with_id(tasks: Seq<TaskView>, id: Seq<char>) -> Option<Seq<char>> {
    let p = id_position(tasks, id);
    if id.len() > 0 && p < tasks.len() {
        Some(tasks[p].name)
    } else {
        None
    }
}

/// The values of a sequence of tasks, in order.
pub open spec fn tasks_view(tasks: Seq<Task>) -> Seq<TaskView> {
    Seq::new(tasks.len(), |i: int| tasks[i]@)
}

/// Why a lookup gave no record.
#[derive(Clone, Copy, PartialEq, Eq, Structural, Debug)]
pub enum LookupError {
    NotFound,
}

/// The task table.
pub struct TaskList {
    tasks: Vec<Task>,
}

impl View for TaskList {
    type V = Seq<TaskView>;

    closed spec fn view(&self) -> Seq<TaskView> {
        tasks_view(self.tasks@)
    }
}

impl TaskList {
    /// The table's invariant: names are unique.
    pub open spec fn wf(&self) -> bool {
        names_unique(self@)
    }

    /// An empty table.
    pub fn new() -> (r: TaskList)
        ensures
            r.wf(),
            r@ == Seq::<TaskView>::empty(),
    {
        let r = TaskList { tasks: Vec::new() };
        assert(r@ =~= Seq::<TaskView>::empty());
        r
    }

    /// Number of tasks in the table.
    pub fn len(&self) -> (n: usize)
        ensures
            n == self@.len(),
    {
        self.tasks.len()
    }

    fn find(&self, name: &String) -> (i: usize)
        ensures
            i == position(self@, name@),
            i <= self.tasks@.len(),
            i < self.tasks@.len() ==> self.tasks@[i as int]@.name == name@,
    {
        let mut i: usize = 0;
        while i < self.tasks.len() && !(self.tasks[i].name == *name)
            invariant
                i <= self.tasks@.len(),
                forall|j: int| 0 <= j < i ==> (#[trigger] self@[j]).name != name@,
            decreases self.tasks@.len() - i,
        {
            i += 1;
        }
        proof {
            let pred = |t: TaskView| t.name == name@;
            assert forall|j: int| 0 <= j < i implies !pred(#[trigger] self@[j]) by {}
            lemma_first_index_is(self@, pred, i as int);
        }
        i
    }

    /// Inserts `task` under its name. A task of that name already in the
    /// table is replaced and keeps its place.
    pub fn add_new_task(&mut self, task: &Task)
        requires
            old(self).wf(),
        ensures
            final(self).wf(),
            final(self)@ == inserted(old(self)@, task@),
            lookup(final(self)@, task@.name) == Some(task@),
            forall|other: Seq<char>|
                other != task@.name ==> #[trigger] lookup(final(self)@, other) == lookup(
                    old(self)@,
                    other,
                ),
    {
        let i = self.find(&task.name);
        let copy = task.snapshot();
        if i < self.tasks.len() {
            self.tasks.set(i, copy);
        } else {
            self.tasks.push(copy);
        }
        proof {
            assert(self@ =~= inserted(old(self)@, task@));
            lemma_inserted(old(self)@, task@);
        }
    }

    /// A copy of the task named `name`.
    pub fn get_task(&self, name: &String) -> (r: Result<Task, LookupError>)
        ensures
            match r {
                Ok(task) => lookup(self@, name@) == Some(task@),
                Err(e) => e == LookupError::NotFound && lookup(self@, name@).is_none(),
            },
    {
        let i = self.find(name);
        if i < self.tasks.len() {
            Ok(self.tasks[i].snapshot())
        } else {
            Err(LookupError::NotFound)
        }
    }

    /// State of the task named `name`; `NotRunning` where there is none.
    pub fn get_task_state(&self, name: &String) -> (r: TaskState)
        ensures
            r == match lookup(self@, name@) {
                Some(task) => task.state,
                None => TaskState::NotRunning,
            },
    {
        let i = self.find(name);
        if i < self.tasks.len() {
            self.tasks[i].state
        } else {
            TaskState::NotRunning
        }
    }

    /// Name of the first task, in table order, whose id begins with
    /// `id_prefix`. Empty where the prefix is empty or nothing matches;
    /// empty also where the first match has no name.
    pub fn get_task_name_by_id(&self, id_prefix: &String) -> (r: String)
        ensures
            r@ == name_by_id(self@, id_prefix@),
            r@.len() > 0 ==> exists|i: int|
                0 <= i < self@.len() && (#[trigger] self@[i]).name == r@ && id_prefix@.is_prefix_of(
                    self@[i].id,
                ),
    {
        if id_prefix.as_str().is_empty() {
            return String::new();
        }
        let mut i: usize = 0;
        while i < self.tasks.len() && !starts_with(self.tasks[i].id.as_str(), id_prefix.as_str())
            invariant
                i <= self.tasks@.len(),
                forall|j: int| 0 <= j < i ==> !id_prefix@.is_prefix_of((#[trigger] self@[j]).id),
            decreases self.tasks@.len() - i,
        {
            i += 1;
        }
        proof {
            let pred = |t: TaskView| id_prefix@.is_prefix_of(t.id);
            assert forall|j: int| 0 <= j < i implies !pred(#[trigger] self@[j]) by {}
            lemma_first_index_is(self@, pred, i as int);
        }
        if i < self.tasks.len() {
            let r = self.tasks[i].name.clone();
            assert(self@[i as int].name == r@);
            r
        } else {
            String::new()
        }
    }

    /// Name of the first task, in table order, whose id is exactly `id`.
    /// `None` where `id` is empty or no task has it.
    pub fn get_task_name_with_id(&self, id: &String) -> (r: Option<String>)
        ensures
            r.is_some() == name_with_id(self@, id@).is_some(),
            r matches Some(name) ==> Some(name@) == name_with_id(self@, id@),
    {
        if id.as_str().is_empty() {
            return None;
        }
        let mut i: usize = 0;
        while i < self.tasks.len() && !(self.tasks[i].id == *id)
            invariant
                i <= self.tasks@.len(),
                forall|j: int| 0 <= j < i ==> (#[trigger] self@[j]).id != id@,
            decreases self.tasks@.len() - i,
        {
            i += 1;
        }
        proof {
            let pred = |t: TaskView| t.id == id@;
            assert forall|j: int| 0 <= j < i implies !pred(#[trigger] self@[j]) by {}
            lemma_first_index_is(self@, pred, i as int);
        }
        if i < self.tasks.len() {
            let name = self.tasks[i].name.clone();
            assert(self@[i as int].name == name@);
            Some(name)
        } else {
            None
        }
    }

    /// Sets the state of the task named `name`. Nothing changes where
    /// there is none.
    pub fn set_task_state(&mut self, name: &String, state: TaskState)
        requires
            old(self).wf(),
        ensures
            final(self).wf(),
            final(self)@ == with_state_set(old(self)@, name@, state),
    {
        let i = self.find(name);
        if i < self.tasks.len() {
            let mut task = self.tasks[i].snapshot();
            task.state = state;
            self.tasks.set(i, task);
        }
        proof {
            assert(self@ =~= with_state_set(old(self)@, name@, state));
            lemma_changed_keeps_names(old(self)@, name@, |t: TaskView| TaskView { state: state, ..t });
        }
    }

    /// Sets id, ip and slave id of the task named `name`. Nothing changes
    /// where there is none.
    pub fn set_task_info(&mut self, name: &String, id: String, ip: String, slave_id: String)
        requires
            old(self).wf(),
        ensures
            final(self).wf(),
            final(self)@ == with_info_set(old(self)@, name@, id@, ip@, slave_id@),
    {
        let i = self.find(name);
        let ghost change = |t: TaskView| TaskView { id: id@, ip: ip@, slave_id: slave_id@, ..t };
        if i < self.tasks.len() {
            let mut task = self.tasks[i].snapshot();
            task.id = id;
            task.ip = ip;
            task.slave_id = slave_id;
            self.tasks.set(i, task);
        }
        proof {
            assert(self@ =~= changed(old(self)@, name@, change));
            lemma_changed_keeps_names(old(self)@, name@, change);
        }
    }

    /// Sets the node of the task named `name`. Nothing changes where there
    /// is none.
    pub fn set_task_node_name(&mut self, name: &String, node_name: String)
        requires
            old(self).wf(),
        ensures
            final(self).wf(),
            final(self)@ == with_node_name_set(old(self)@, name@, node_name@),
    {
        let i = self.find(name);
        let ghost change = |t: TaskView| TaskView { node_name: node_name@, ..t };
        if i < self.tasks.len() {
            let mut task = self.tasks[i].snapshot();
            task.node_name = node_name;
            self.tasks.set(i, task);
        }
        proof {
            assert(self@ =~= changed(old(self)@, name@, change));
            lemma_changed_keeps_names(old(self)@, name@, change);
        }
    }

    /// Stamps the task named `name` with the time `now`. Nothing changes
    /// where there is none.
    pub fn update_task_last_update(&mut self, name: &String, now: i64)
        requires
            old(self).wf(),
        ensures
            final(self).wf(),
            final(self)@ == with_last_update_set(old(self)@, name@, now),
    {
        let i = self.find(name);
        let ghost change = |t: TaskView| TaskView { last_update: now, ..t };
        if i < self.tasks.len() {
            let mut task = self.tasks[i].snapshot();
            task.last_update = now;
            self.tasks.set(i, task);
        }
        proof {
            assert(self@ =~= changed(old(self)@, name@, change));
            lemma_changed_keeps_names(old(self)@, name@, change);
        }
    }

    /// Removes the task named `name`. Nothing changes where there is none.
    pub fn remove_task_by_name(&mut self, name: &String)
        requires
            old(self).wf(),
        ensures
            final(self).wf(),
            final(self)@ == removed(old(self)@, name@),
            lookup(final(self)@, name@).is_none(),
    {
        let i = self.find(name);
        if i < self.tasks.len() {
            self.tasks.remove(i);
        }
        proof {
            assert(self@ =~= removed(old(self)@, name@));
            lemma_removed(old(self)@, name@);
        }
    }

    /// Removes the expired replicas and gives copies of them, in table
    /// order.
    pub fn remove_expired_foreign(&mut self, my_name: &String, timeout: i64, now: i64) -> (r: Vec<
        Task,
    >)
        requires
            old(self).wf(),
        ensures
            final(self).wf(),
            final(self)@ == without_expired_foreign(old(self)@, my_name@, timeout, now),
            tasks_view(r@) == expired_foreign(old(self)@, my_name@, timeout, now),
    {
        let mut kept: Vec<Task> = Vec::new();
        let mut gone: Vec<Task> = Vec::new();
        let mut i: usize = 0;
        let ghost leaves = |t: TaskView| is_expired_foreign(t, my_name@, timeout, now);
        let ghost stays = |t: TaskView| !is_expired_foreign(t, my_name@, timeout, now);
        proof {
            assert(self@.take(0) =~= Seq::<TaskView>::empty());
            assert(tasks_view(kept@) =~= Seq::<TaskView>::empty());
            assert(tasks_view(gone@) =~= Seq::<TaskView>::empty());
            reveal_with_fuel(Seq::filter, 1);
        }
        while i < self.tasks.len()
            invariant
                i <= self.tasks@.len(),
                self@.len() == self.tasks@.len(),
                leaves == (|t: TaskView| is_expired_foreign(t, my_name@, timeout, now)),
                stays == (|t: TaskView| !is_expired_foreign(t, my_name@, timeout, now)),
                tasks_view(kept@) == self@.take(i as int).filter(stays),
                tasks_view(gone@) == self@.take(i as int).filter(leaves),
            decreases self.tasks@.len() - i,
        {
            proof {
                self@.lemma_take_succ_push(i as int);
                self@.take(i as int).lemma_filter_push(self@[i as int], stays);
                self@.take(i as int).lemma_filter_push(self@[i as int], leaves);
            }
            let ghost kept_before = tasks_view(kept@);
            let ghost gone_before = tasks_view(gone@);
            let task = self.tasks[i].snapshot();
            if task.state == TaskState::Running && !(task.controller == *my_name) && overdue(
                task.last_update,
                timeout,
                now,
            ) {
                gone.push(task);
                assert(tasks_view(gone@) =~= gone_before.push(self@[i as int]));
            } else {
                kept.push(task);
                assert(tasks_view(kept@) =~= kept_before.push(self@[i as int]));
            }
            i += 1;
        }
        proof {
            self@.lemma_take_len();
            lemma_filtered(self@, stays);
        }
        self.tasks = kept;
        gone
    }

    /// Requests again every task of this controller whose restart is due.
    pub fn promote_due_restarts(&mut self, my_name: &String, delay: i64, now: i64)
        requires
            old(self).wf(),
        ensures
            final(self).wf(),
            final(self)@ == promoted(old(self)@, my_name@, delay, now),
    {
        let mut i: usize = 0;
        while i < self.tasks.len()
            invariant
                i <= self.tasks@.len(),
                self@.len() == old(self)@.len(),
                self.tasks@.len() == old(self)@.len(),
                forall|j: int|
                    0 <= j < i ==> #[trigger] self@[j] == promoted_task(
                        old(self)@[j],
                        my_name@,
                        delay,
                        now,
                    ),
                forall|j: int| i <= j < self@.len() ==> #[trigger] self@[j] == old(self)@[j],
            decreases self.tasks@.len() - i,
        {
            let ghost before = self@;
            assert(before[i as int] == old(self)@[i as int]);
            assert(before[i as int] == self.tasks@[i as int]@);
            if self.tasks[i].state == TaskState::Restart && self.tasks[i].controller == *my_name
                && overdue(self.tasks[i].last_update, delay, now) {
                let mut task = self.tasks[i].snapshot();
                task.state = TaskState::Requested;
                self.tasks.set(i, task);
                assert(self@ =~= before.update(
                    i as int,
                    promoted_task(old(self)@[i as int], my_name@, delay, now),
                ));
            }
            i += 1;
        }
        proof {
            assert(self@ =~= promoted(old(self)@, my_name@, delay, now));
            lemma_same_names(old(self)@, self@);
        }
    }

    /// Copies of the tasks in state `state`, in table order.
    pub fn get_tasks_with_state(&self, state: TaskState) -> (r: Vec<Task>)
        ensures
            tasks_view(r@) == in_state(self@, state),
    {
        let mut out: Vec<Task> = Vec::new();
        let mut i: usize = 0;
        let ghost pred = |t: TaskView| t.state == state;
        proof {
            assert(self@.take(0) =~= Seq::<TaskView>::empty());
            assert(tasks_view(out@) =~= Seq::<TaskView>::empty());
            reveal_with_fuel(Seq::filter, 1);
        }
        while i < self.tasks.len()
            invariant
                i <= self.tasks@.len(),
                self@.len() == self.tasks@.len(),
                pred == (|t: TaskView| t.state == state),
                tasks_view(out@) == self@.take(i as int).filter(pred),
            decreases self.tasks@.len() - i,
        {
            proof {
                self@.lemma_take_succ_push(i as int);
                self@.take(i as int).lemma_filter_push(self@[i as int], pred);
            }
            if self.tasks[i].state == state {
                let ghost before = tasks_view(out@);
                out.push(self.tasks[i].snapshot());
                assert(tasks_view(out@) =~= before.push(self@[i as int]));
            }
            i += 1;
        }
        proof {
            self@.lemma_take_len();
        }
        out
    }
}

/// After an insertion names are still unique, the inserted task is the
/// record of its name, and every other name has the record it had.
pub proof fn lemma_inserted(tasks: Seq<TaskView>, task: TaskView)
    requires
        names_unique(tasks),
    ensures
        names_unique(inserted(tasks, task)),
        lookup(inserted(tasks, task), task.name) == Some(task),
        forall|other: Seq<char>|
            other != task.name ==> #[trigger] lookup(inserted(tasks, task), other) == lookup(
                tasks,
                other,
            ),
{
    let after = inserted(tasks, task);
    let p = position(tasks, task.name);
    lemma_first_index(tasks, |t: TaskView| t.name == task.name);
    assert(names_unique(after)) by {
        assert forall|i: int, j: int| 0 <= i < j < after.len() implies (#[trigger] after[i]).name
            != (#[trigger] after[j]).name by {
            if p < tasks.len() {
                assert(after[i].name == tasks[i].name);
                assert(after[j].name == tasks[j].name);
            } else {
                if j < tasks.len() {
                } else {
                    assert(after[i] == tasks[i]);
                }
            }
        }
    }
    lemma_first_index_is(after, |t: TaskView| t.name == task.name, p);
    assert forall|other: Seq<char>| other != task.name implies #[trigger] lookup(after, other)
        == lookup(tasks, other) by {
        let pred = |t: TaskView| t.name == other;
        lemma_first_index(tasks, pred);
        let q = first_index(tasks, pred);
        if q < tasks.len() {
            assert(after[q] == tasks[q]);
            assert forall|j: int| 0 <= j < q implies !pred(#[trigger] after[j]) by {
                assert(after[j].name == tasks[j].name || after[j] == task);
            }
            lemma_first_index_is(after, pred, q);
        } else {
            assert forall|j: int| 0 <= j < after.len() implies !pred(#[trigger] after[j]) by {
                if j < tasks.len() {
                    assert(after[j].name == tasks[j].name || after[j] == task);
                }
            }
            lemma_first_index_is(after, pred, after.len() as int);
        }
    }
}

/// A change that keeps the name of the record keeps every name in its
/// place, and so keeps names unique.
pub proof fn lemma_changed_keeps_names(
    tasks: Seq<TaskView>,
    name: Seq<char>,
    change: spec_fn(TaskView) -> TaskView,
)
    requires
        names_unique(tasks),
        forall|t: TaskView| (#[trigger] change(t)).name == t.name,
    ensures
        names_unique(changed(tasks, name, change)),
        changed(tasks, name, change).len() == tasks.len(),
        forall|i: int|
            0 <= i < tasks.len() ==> (#[trigger] changed(tasks, name, change)[i]).name
                == tasks[i].name,
        forall|other: Seq<char>| #[trigger]
            position(changed(tasks, name, change), other) == position(tasks, other),
{
    let after = changed(tasks, name, change);
    lemma_first_index(tasks, |t: TaskView| t.name == name);
    assert forall|i: int| 0 <= i < tasks.len() implies (#[trigger] after[i]).name
        == tasks[i].name by {}
    assert forall|i: int, j: int| 0 <= i < j < after.len() implies (#[trigger] after[i]).name != (
    #[trigger] after[j]).name by {
        assert(after[i].name == tasks[i].name);
        assert(after[j].name == tasks[j].name);
    }
    assert forall|other: Seq<char>| #[trigger]
        position(after, other) == position(tasks, other) by {
        let pred = |t: TaskView| t.name == other;
        lemma_first_index(tasks, pred);
        let q = first_index(tasks, pred);
        assert forall|j: int| 0 <= j < q implies !pred(#[trigger] after[j]) by {
            assert(after[j].name == tasks[j].name);
        }
        if q < tasks.len() {
            assert(after[q].name == tasks[q].name);
        }
        lemma_first_index_is(after, pred, q);
    }
}

/// The table after the tasks of `batch` were inserted one after the
/// other.
pub open spec fn inserted_all(tasks: Seq<TaskView>, batch: Seq<TaskView>) -> Seq<TaskView>
    decreases batch.len(),
{
    if batch.len() == 0 {
        tasks
    } else {
        inserted(inserted_all(tasks, batch.drop_last()), batch.last())
    }
}

/// The last task of `batch` that is named `name`, if there is one.
pub open spec fn last_named(batch: Seq<TaskView>, name: Seq<char>) -> Option<TaskView>
    decreases batch.len(),
{
    if batch.len() == 0 {
        None
    } else if batch.last().name == name {
        Some(batch.last())
    } else {
        last_named(batch.drop_last(), name)
    }
}

/// After any sequence of insertions the table holds one record for each
/// name: the task of that name that was inserted last, or, where none of
/// that name was inserted, the record that the table had.
pub proof fn lemma_inserted_all(tasks: Seq<TaskView>, batch: Seq<TaskView>)
    requires
        names_unique(tasks),
    ensures
        names_unique(inserted_all(tasks, batch)),
        forall|name: Seq<char>| #[trigger]
            lookup(inserted_all(tasks, batch), name) == match last_named(batch, name) {
                Some(task) => Some(task),
                None => lookup(tasks, name),
            },
    decreases batch.len(),
{
    if batch.len() > 0 {
        lemma_inserted_all(tasks, batch.drop_last());
        lemma_inserted(inserted_all(tasks, batch.drop_last()), batch.last());
    }
}

/// The tasks that a read of the state `state` gives are exactly the
/// tasks of the table that are in that state.
pub proof fn lemma_in_state(tasks: Seq<TaskView>, state: TaskState, task: TaskView)
    ensures
        in_state(tasks, state).contains(task) <==> tasks.contains(task) && task.state == state,
{
    let pred = |t: TaskView| t.state == state;
    if in_state(tasks, state).contains(task) {
        let k = choose|k: int| 0 <= k < tasks.filter(pred).len() && tasks.filter(pred)[k] == task;
        tasks.lemma_filter_pred(pred, k);
        tasks.lemma_filter_contains_rev(pred, task);
    }
    if tasks.contains(task) && task.state == state {
        let i = choose|i: int| 0 <= i < tasks.len() && tasks[i] == task;
        tasks.lemma_filter_contains(pred, i);
    }
}

/// A name that the lookup by id gives is the name of a task of the table
/// whose id begins with the prefix.
pub proof fn lemma_name_by_id(tasks: Seq<TaskView>, id_prefix: Seq<char>)
    requires
        name_by_id(tasks, id_prefix).len() > 0,
    ensures
        exists|i: int|
            0 <= i < tasks.len() && (#[trigger] tasks[i]).name == name_by_id(tasks, id_prefix)
                && id_prefix.is_prefix_of(tasks[i].id),
{
    let pred = |t: TaskView| id_prefix.is_prefix_of(t.id);
    lemma_first_index(tasks, pred);
    let p = first_index(tasks, pred);
    assert(tasks[p].name == name_by_id(tasks, id_prefix));
}

/// Where every task has a name, the lookup by id gives a name exactly
/// when the prefix is not empty and the id of some task begins with it.
/// A task without a name cannot be told from no match by its name.
pub proof fn lemma_name_by_id_found(tasks: Seq<TaskView>, id_prefix: Seq<char>)
    requires
        forall|i: int| 0 <= i < tasks.len() ==> (#[trigger] tasks[i]).name.len() > 0,
    ensures
        name_by_id(tasks, id_prefix).len() > 0 <==> id_prefix.len() > 0 && exists|i: int|
            0 <= i < tasks.len() && id_prefix.is_prefix_of((#[trigger] tasks[i]).id),
{
    let pred = |t: TaskView| id_prefix.is_prefix_of(t.id);
    lemma_first_index(tasks, pred);
    let p = first_index(tasks, pred);
    if id_prefix.len() > 0 {
        if p < tasks.len() {
            assert(tasks[p].name.len() > 0);
            assert(id_prefix.is_prefix_of(tasks[p].id));
        } else {
            assert forall|i: int| 0 <= i < tasks.len() implies !id_prefix.is_prefix_of(
                (#[trigger] tasks[i]).id,
            ) by {
                assert(!pred(tasks[i]));
            }
        }
    }
}

/// Two tables with the same names in the same places find every name in
/// the same place, and names are unique in both or in neither.
pub proof fn lemma_same_names(a: Seq<TaskView>, b: Seq<TaskView>)
    requires
        a.len() == b.len(),
        forall|i: int| 0 <= i < a.len() ==> (#[trigger] a[i]).name == b[i].name,
    ensures
        names_unique(a) ==> names_unique(b),
        forall|name: Seq<char>| #[trigger] position(b, name) == position(a, name),
{
    if names_unique(a) {
        assert forall|i: int, j: int| 0 <= i < j < b.len() implies (#[trigger] b[i]).name != (
        #[trigger] b[j]).name by {
            assert(a[i].name == b[i].name);
            assert(a[j].name == b[j].name);
        }
    }
    assert forall|name: Seq<char>| #[trigger] position(b, name) == position(a, name) by {
        let pred = |t: TaskView| t.name == name;
        lemma_first_index(a, pred);
        let q = first_index(a, pred);
        assert forall|j: int| 0 <= j < q implies !pred(#[trigger] b[j]) by {
            assert(a[j].name == b[j].name);
        }
        if q < a.len() {
            assert(a[q].name == b[q].name);
        }
        lemma_first_index_is(b, pred, q);
    }
}

/// What stays of a table with unique names when only the records that
/// satisfy `keep` are kept: names are still unique, every record is one
/// of the table that satisfies `keep`, and a name has the record it had
/// where that record satisfies `keep`, and none where it does not.
pub proof fn lemma_filtered(tasks: Seq<TaskView>, keep: spec_fn(TaskView) -> bool)
    requires
        names_unique(tasks),
    ensures
        names_unique(tasks.filter(keep)),
        forall|k: int|
            0 <= k < tasks.filter(keep).len() ==> tasks.contains(#[trigger] tasks.filter(keep)[k])
                && keep(tasks.filter(keep)[k]),
        forall|name: Seq<char>| #[trigger]
            lookup(tasks.filter(keep), name) == match lookup(tasks, name) {
                Some(task) => if keep(task) {
                    Some(task)
                } else {
                    None
                },
                None => None,
            },
    decreases tasks.len(),
{
    reveal(Seq::filter);
    let f = tasks.filter(keep);
    if tasks.len() > 0 {
        let init = tasks.drop_last();
        let last = tasks.last();
        let fi = init.filter(keep);
        assert(names_unique(init)) by {
            assert forall|i: int, j: int| 0 <= i < j < init.len() implies (#[trigger] init[i]).name
                != (#[trigger] init[j]).name by {
                assert(init[i] == tasks[i]);
                assert(init[j] == tasks[j]);
            }
        }
        lemma_filtered(init, keep);
        assert forall|k: int| 0 <= k < fi.len() implies exists|j: int|
            0 <= j < init.len() && tasks[j] == #[trigger] fi[k] by {
            assert(init.contains(fi[k]));
            let j = choose|j: int| 0 <= j < init.len() && init[j] == fi[k];
            assert(tasks[j] == fi[k]);
        }
        assert forall|k: int| 0 <= k < f.len() implies tasks.contains(#[trigger] f[k]) && keep(
            f[k],
        ) by {
            if k < fi.len() {
                let j = choose|j: int| 0 <= j < init.len() && tasks[j] == fi[k];
                assert(tasks[j] == f[k]);
            } else {
                assert(tasks[tasks.len() - 1] == f[k]);
            }
        }
        assert forall|i: int, j: int| 0 <= i < j < f.len() implies (#[trigger] f[i]).name != (
        #[trigger] f[j]).name by {
            if j >= fi.len() {
                let oi = choose|oi: int| 0 <= oi < init.len() && tasks[oi] == fi[i];
                assert(tasks[oi].name != tasks[tasks.len() - 1].name);
            } else {
                assert(fi[i].name != fi[j].name);
            }
        }
        assert forall|name: Seq<char>| #[trigger]
            lookup(f, name) == match lookup(tasks, name) {
                Some(task) => if keep(task) {
                    Some(task)
                } else {
                    None
                },
                None => None,
            } by {
            let pred = |t: TaskView| t.name == name;
            lemma_first_index(init, pred);
            lemma_first_index(fi, pred);
            lemma_first_index(tasks, pred);
            lemma_first_index(f, pred);
            let p = first_index(init, pred);
            let q = first_index(fi, pred);
            assert(lookup(fi, name) == match lookup(init, name) {
                Some(task) => if keep(task) {
                    Some(task)
                } else {
                    None
                },
                None => None,
            });
            if p < init.len() {
                assert(init[p] == tasks[p]);
                assert(tasks[p].name != last.name);
                lemma_first_index_is(tasks, pred, p);
                if keep(init[p]) {
                    assert(f[q] == fi[q]);
                    lemma_first_index_is(f, pred, q);
                } else {
                    assert forall|j: int| 0 <= j < f.len() implies !pred(#[trigger] f[j]) by {
                        if j < fi.len() {
                            assert(f[j] == fi[j]);
                        }
                    }
                    lemma_first_index_is(f, pred, f.len() as int);
                }
            } else {
                assert(q == fi.len());
                if pred(last) {
                    lemma_first_index_is(tasks, pred, tasks.len() - 1);
                    if keep(last) {
                        assert forall|j: int| 0 <= j < fi.len() implies !pred(#[trigger] f[j]) by {
                            assert(f[j] == fi[j]);
                        }
                        lemma_first_index_is(f, pred, fi.len() as int);
                    } else {
                        lemma_first_index_is(f, pred, f.len() as int);
                    }
                } else {
                    lemma_first_index_is(tasks, pred, tasks.len() as int);
                    assert forall|j: int| 0 <= j < f.len() implies !pred(#[trigger] f[j]) by {
                        if j < fi.len() {
                            assert(f[j] == fi[j]);
                        }
                    }
                    lemma_first_index_is(f, pred, f.len() as int);
                }
            }
        }
    } else {
        assert(f.len() == 0);
        assert forall|name: Seq<char>| #[trigger] lookup(f, name) == lookup(tasks, name) by {}
    }
}

/// After a change that keeps the name, the changed record is the record
/// of its name and every other name has the record it had.
pub proof fn lemma_changed(
    tasks: Seq<TaskView>,
    name: Seq<char>,
    change: spec_fn(TaskView) -> TaskView,
)
    requires
        names_unique(tasks),
        forall|t: TaskView| (#[trigger] change(t)).name == t.name,
    ensures
        names_unique(changed(tasks, name, change)),
        lookup(changed(tasks, name, change), name) == match lookup(tasks, name) {
            Some(task) => Some(change(task)),
            None => None,
        },
        forall|other: Seq<char>|
            other != name ==> #[trigger] lookup(changed(tasks, name, change), other) == lookup(
                tasks,
                other,
            ),
{
    lemma_changed_keeps_names(tasks, name, change);
    let after = changed(tasks, name, change);
    lemma_first_index(tasks, |t: TaskView| t.name == name);
    assert(position(after, name) == position(tasks, name));
    assert forall|other: Seq<char>| other != name implies #[trigger] lookup(after, other)
        == lookup(tasks, other) by {
        lemma_first_index(tasks, |t: TaskView| t.name == other);
        assert(position(after, other) == position(tasks, other));
    }
}

/// After a removal names are still unique, the name is gone, and every
/// other name has the record it had.
pub proof fn lemma_removed(tasks: Seq<TaskView>, name: Seq<char>)
    requires
        names_unique(tasks),
    ensures
        names_unique(removed(tasks, name)),
        lookup(removed(tasks, name), name).is_none(),
        forall|other: Seq<char>|
            other != name ==> #[trigger] lookup(removed(tasks, name), other) == lookup(
                tasks,
                other,
            ),
{
    let after = removed(tasks, name);
    let p = position(tasks, name);
    lemma_first_index(tasks, |t: TaskView| t.name == name);
    assert forall|i: int, j: int| 0 <= i < j < after.len() implies (#[trigger] after[i]).name != (
    #[trigger] after[j]).name by {
        if p < tasks.len() {
            let oi = if i < p { i } else { i + 1 };
            let oj = if j < p { j } else { j + 1 };
            assert(after[i] == tasks[oi]);
            assert(after[j] == tasks[oj]);
        }
    }
    assert forall|j: int| 0 <= j < after.len() implies !(|t: TaskView| t.name == name)(
        #[trigger] after[j],
    ) by {
        if p < tasks.len() {
            let oj = if j < p { j } else { j + 1 };
            assert(after[j] == tasks[oj]);
            if oj > p {
                assert(tasks[p].name != tasks[oj].name);
            }
        }
    }
    lemma_first_index_is(after, |t: TaskView| t.name == name, after.len() as int);
    assert forall|other: Seq<char>| other != name implies #[trigger] lookup(after, other)
        == lookup(tasks, other) by {
        let pred = |t: TaskView| t.name == other;
        lemma_first_index(tasks, pred);
        let q = first_index(tasks, pred);
        if p < tasks.len() {
            let nq = if q < p { q } else { q - 1 };
            assert forall|j: int| 0 <= j < nq implies !pred(#[trigger] after[j]) by {
                let oj = if j < p { j } else { j + 1 };
                assert(after[j] == tasks[oj]);
            }
            if q < tasks.len() {
                assert(q != p);
                assert(after[nq] == tasks[q]);
            }
            lemma_first_index_is(after, pred, nq);
        }
    }
}

} // verus!
