//! Tasks: container instances with placement, resources and lifecycle state.

use vstd::prelude::*;

verus! {

/// Lifecycle state of a task.
#[derive(Clone, Copy, PartialEq, Eq, Structural, Debug, Hash)]
pub enum TaskState {
    NotRunning,
    Restart,
    Requested,
    Accepted,
    Running,
}

/// A host directory mounted into a task's container.
#[derive(Clone, Debug)]
pub struct Volume {
    pub host_path: String,
    pub container_path: String,
    pub read_only_mode: bool,
}

/// Mathematical value of a [`Volume`].
pub struct VolumeView {
    pub host_path: Seq<char>,
    pub container_path: Seq<char>,
    pub read_only_mode: bool,
}

impl View for Volume {
    type V = VolumeView;

    open spec fn view(&self) -> VolumeView {
        VolumeView {
            host_path: self.host_path@,
            container_path: self.container_path@,
            read_only_mode: self.read_only_mode,
        }
    }
}

impl Volume {
    /// A value copy of this volume.
    pub fn snapshot(&self) -> (r: Volume)
        ensures
            r@ == self@,
    {
        Volume {
            host_path: self.host_path.clone(),
            container_path: self.container_path.clone(),
            read_only_mode: self.read_only_mode,
        }
    }
}

/// Service-level terms attached to a task. The tables carry it through
/// unread.
#[derive(Clone, Copy, PartialEq, Eq, Structural, Debug)]
pub struct SLA {
    pub preemptable: bool,
}

/// The values of a sequence of volumes, in order.
pub open spec fn volumes_view(volumes: Seq<Volume>) -> Seq<VolumeView> {
    Seq::new(volumes.len(), |i: int| volumes[i]@)
}

/// A value copy of a list of volumes, in the same order.
pub fn snapshot_volumes(volumes: &Vec<Volume>) -> (r: Vec<Volume>)
    ensures
        volumes_view(r@) == volumes_view(volumes@),
{
    let mut out: Vec<Volume> = Vec::new();
    let mut i: usize = 0;
    while i < volumes.len()
        invariant
            i <= volumes.len(),
            out.len() == i,
            forall|j: int| 0 <= j < i ==> out@[j]@ == volumes@[j]@,
        decreases volumes.len() - i,
    {
        out.push(volumes[i].snapshot());
        i += 1;
    }
    assert(volumes_view(out@) =~= volumes_view(volumes@));
    out
}

/// A task as the tables hold it.
///
/// `memory` and `cpu` hold the IEEE 754 binary64 bit pattern of the
/// requested amount, so that a request is carried through bit for bit.
/// `last_update` is in seconds since the Unix epoch, UTC.
#[derive(Clone, Debug)]
pub struct Task {
    pub name: String,
    pub id: String,
    pub controller: String,
    pub image: String,
    pub node_name: String,
    pub node_type: String,
    pub node_function: String,
    pub dependent_service: String,
    pub arguments: String,
    pub parameters: String,
    pub memory: u64,
    pub cpu: u64,
    pub privileged: bool,
    pub sla: SLA,
    pub is_metered: bool,
    pub is_system_service: bool,
    pub is_job: bool,
    pub volumes: Vec<Volume>,
    pub network_type: String,
    pub ip: String,
    pub slave_id: String,
    pub state: TaskState,
    pub last_update: i64,
}

/// Mathematical value of a [`Task`].
pub struct TaskView {
    pub name: Seq<char>,
    pub id: Seq<char>,
    pub controller: Seq<char>,
    pub image: Seq<char>,
    pub node_name: Seq<char>,
    pub node_type: Seq<char>,
    pub node_function: Seq<char>,
    pub dependent_service: Seq<char>,
    pub arguments: Seq<char>,
    pub parameters: Seq<char>,
    pub memory: u64,
    pub cpu: u64,
    pub privileged: bool,
    pub sla: SLA,
    pub is_metered: bool,
    pub is_system_service: bool,
    pub is_job: bool,
    pub volumes: Seq<VolumeView>,
    pub network_type: Seq<char>,
    pub ip: Seq<char>,
    pub slave_id: Seq<char>,
    pub state: TaskState,
    pub last_update: i64,
}

impl View for Task {
    type V = TaskView;

    open spec fn view(&self) -> TaskView {
        TaskView {
            name: self.name@,
            id: self.id@,
            controller: self.controller@,
            image: self.image@,
            node_name: self.node_name@,
            node_type: self.node_type@,
            node_function: self.node_function@,
            dependent_service: self.dependent_service@,
            arguments: self.arguments@,
            parameters: self.parameters@,
            memory: self.memory,
            cpu: self.cpu,
            privileged: self.privileged,
            sla: self.sla,
            is_metered: self.is_metered,
            is_system_service: self.is_system_service,
            is_job: self.is_job,
            volumes: volumes_view(self.volumes@),
            network_type: self.network_type@,
            ip: self.ip@,
            slave_id: self.slave_id@,
            state: self.state,
            last_update: self.last_update,
        }
    }
}

impl Task {
    /// A value copy of the whole record.
    pub fn snapshot(&self) -> (r: Task)
        ensures
            r@ == self@,
    {
        Task {
            name: self.name.clone(),
            id: self.id.clone(),
            controller: self.controller.clone(),
            image: self.image.clone(),
            node_name: self.node_name.clone(),
            node_type: self.node_type.clone(),
            node_function: self.node_function.clone(),
            dependent_service: self.dependent_service.clone(),
            arguments: self.arguments.clone(),
            parameters: self.parameters.clone(),
            memory: self.memory,
            cpu: self.cpu,
            privileged: self.privileged,
            sla: self.sla,
            is_metered: self.is_metered,
            is_system_service: self.is_system_service,
            is_job: self.is_job,
            volumes: snapshot_volumes(&self.volumes),
            network_type: self.network_type.clone(),
            ip: self.ip.clone(),
            slave_id: self.slave_id.clone(),
            state: self.state,
            last_update: self.last_update,
        }
    }
}

} // verus!
