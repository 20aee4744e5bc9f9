//! Events of the trace stream.
use vstd::prelude::*;
use vstd::std_specs::convert::{FromSpec, FromSpecImpl};

verus! {

/// Whose activity an event records: a worker by its flat ID, or a thread that
/// is no known worker of the group.
#[derive(Debug, Clone, Copy, PartialEq, Eq, Hash, Structural)]
pub enum WorkerId {
    /// A worker, by its ID in the flat range shared by all runtimes.
    Worker(u64),
    /// The thread could not be resolved to a worker.
    Unknown,
    /// A thread of a blocking pool.
    Blocking,
}

impl From<usize> for WorkerId {
    fn from(id: usize) -> (res: WorkerId) {
        WorkerId::Worker(id as u64)
    }
}

impl FromSpecImpl<usize> for WorkerId {
    open spec fn obeys_from_spec() -> bool {
        true
    }

    open spec fn from_spec(id: usize) -> WorkerId {
        WorkerId::Worker(id as u64)
    }
}

/// Identifier of a task.
#[derive(Debug, Clone, Copy, PartialEq, Eq, Hash, Structural)]
pub struct TaskId(pub u64);

/// Place in the source where a task was spawned.
#[derive(Debug, Clone, Copy, PartialEq, Eq, Hash)]
pub struct SpawnLocation {
    pub file: &'static str,
    pub line: u32,
    pub column: u32,
}

/// One event of the trace stream.
#[derive(Debug, PartialEq, Eq)]
pub enum RawEvent {
    /// Describes a runtime of the group: its index, its name, its range of
    /// flat worker IDs and its flavor.
    RuntimeDef {
        timestamp_nanos: u64,
        runtime_index: u8,
        name: String,
        worker_base: u8,
        worker_count: u8,
        flavor: String,
    },
    /// A worker thread is about to park.
    WorkerPark {
        timestamp_nanos: u64,
        worker_id: WorkerId,
        worker_local_queue_depth: usize,
        cpu_time_nanos: u64,
    },
    /// A worker thread woke up.
    WorkerUnpark {
        timestamp_nanos: u64,
        worker_id: WorkerId,
        worker_local_queue_depth: usize,
        cpu_time_nanos: u64,
        sched_wait_delta_nanos: u64,
    },
    /// A task is about to be polled.
    PollStart {
        timestamp_nanos: u64,
        worker_id: WorkerId,
        worker_local_queue_depth: usize,
        task_id: TaskId,
        location: SpawnLocation,
    },
    /// A task was polled.
    PollEnd { timestamp_nanos: u64, worker_id: WorkerId },
    /// A task was spawned.
    TaskSpawn { timestamp_nanos: u64, task_id: TaskId, location: SpawnLocation },
    /// A task finished or was cancelled.
    TaskTerminate { timestamp_nanos: u64, task_id: TaskId },
}

/// What a `RuntimeDef` event says, with its texts as sequences.
pub struct RuntimeDefModel {
    pub timestamp_nanos: u64,
    pub runtime_index: nat,
    pub name: Seq<char>,
    pub worker_base: nat,
    pub worker_count: nat,
    pub flavor: Seq<char>,
}

impl RawEvent {
    /// What the event says of a runtime, if it is a `RuntimeDef`.
    pub open spec fn runtime_def(self) -> Option<RuntimeDefModel> {
        match self {
            RawEvent::RuntimeDef {
                timestamp_nanos,
                runtime_index,
                name,
                worker_base,
                worker_count,
                flavor,
            } => Some(
                RuntimeDefModel {
                    timestamp_nanos,
                    runtime_index: runtime_index as nat,
                    name: name@,
                    worker_base: worker_base as nat,
                    worker_count: worker_count as nat,
                    flavor: flavor@,
                },
            ),
            _ => None,
        }
    }
}

/// A worker's ID in the trace is its flat ID, whatever that is.
pub proof fn law_a_flat_id_names_its_worker(id: usize)
    ensures
        <WorkerId as FromSpec<usize>>::obeys_from_spec(),
        <WorkerId as FromSpec<usize>>::from_spec(id) == WorkerId::Worker(id as u64),
{
}

/// What a `RuntimeDef` event says of a runtime is what its fields hold, and
/// events of other kinds say nothing of one.
pub proof fn law_definitions_say_what_their_fields_hold(event: RawEvent)
    ensures
        event.runtime_def() is Some <==> event is RuntimeDef,
        event matches RawEvent::RuntimeDef {
            timestamp_nanos,
            runtime_index,
            name,
            worker_base,
            worker_count,
            flavor,
        } ==> {
            &&& event.runtime_def()->0.timestamp_nanos == timestamp_nanos
            &&& event.runtime_def()->0.runtime_index == runtime_index
            &&& event.runtime_def()->0.name == name@
            &&& event.runtime_def()->0.worker_base == worker_base
            &&& event.runtime_def()->0.worker_count == worker_count
            &&& event.runtime_def()->0.flavor == flavor@
        },
{
}

} // verus!
