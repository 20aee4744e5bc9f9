//! What the telemetry callbacks of one runtime do.
//!
//! Every runtime of a group carries callbacks that Tokio runs on its worker
//! threads. Reading the clocks and recording the event happen there; which
//! callbacks a runtime gets, which worker an event is attributed to and what
//! the event says is decided here.
use crate::event::{RawEvent, SpawnLocation, TaskId, WorkerId};
use vstd::prelude::*;

verus! {

/// A place where Tokio lets a callback run.
#[derive(Debug, Clone, Copy, PartialEq, Eq, Structural)]
pub enum CallbackKind {
    ThreadPark,
    ThreadUnpark,
    BeforeTaskPoll,
    AfterTaskPoll,
    TaskSpawn,
    TaskTerminate,
    ThreadStart,
    ThreadStop,
}

/// The callbacks of one runtime.
#[derive(Debug, Clone, Copy, PartialEq, Eq, Structural)]
pub struct CallbackPlan {
    /// First flat worker ID of the runtime.
    pub worker_base: u8,
    /// Whether the worker ID is known to be `worker_base`, so that callbacks
    /// need not look up which worker they run on.
    pub current_thread_hint: bool,
    /// Whether task-spawn and task-terminate events are recorded.
    pub task_tracking: bool,
    /// Whether the threads of the runtime are followed.
    pub thread_tracking: bool,
}

impl CallbackPlan {
    /// The callbacks to install, in this order: the four core callbacks, the
    /// two task-tracking callbacks if task tracking is on, and the two that
    /// follow the threads of the runtime if its threads are followed.
    pub open spec fn kinds(self) -> Seq<CallbackKind> {
        let core = seq![
            CallbackKind::ThreadPark,
            CallbackKind::ThreadUnpark,
            CallbackKind::BeforeTaskPoll,
            CallbackKind::AfterTaskPoll,
        ];
        let tasks = if self.task_tracking {
            seq![CallbackKind::TaskSpawn, CallbackKind::TaskTerminate]
        } else {
            seq![]
        };
        let threads = if self.thread_tracking {
            seq![CallbackKind::ThreadStart, CallbackKind::ThreadStop]
        } else {
            seq![]
        };
        core + tasks + threads
    }

    /// The plan once the runtime is registered: the worker of a runtime on the
    /// current thread needs no lookup.
    pub open spec fn settled(self, constant_worker: bool) -> CallbackPlan {
        CallbackPlan {
            current_thread_hint: self.current_thread_hint || constant_worker,
            ..self
        }
    }

    /// The worker that an event is attributed to, where `resolved` is the flat
    /// ID that the lookup on the calling thread gave, if any.
    pub open spec fn worker(self, resolved: Option<usize>) -> WorkerId {
        if self.current_thread_hint {
            WorkerId::Worker(self.worker_base as u64)
        } else {
            match resolved {
                Some(id) => WorkerId::Worker(id as u64),
                None => WorkerId::Unknown,
            }
        }
    }

    /// The index within the runtime of the worker whose local queue is to be
    /// measured, if one is.
    pub open spec fn queue_index(self, resolved: Option<usize>, metrics_ready: bool) -> Option<int> {
        match resolved {
            Some(id) if !self.current_thread_hint && metrics_ready => Some(id - self.worker_base),
            _ => None,
        }
    }

    /// The local queue depth that an event reports: the measured depth of the
    /// worker that the lookup gave. It is 0 if none was measured, if the lookup
    /// gave no worker, or if the plan makes no lookup.
    pub open spec fn queue_depth(self, resolved: Option<usize>, measured: Option<usize>) -> usize {
        match measured {
            Some(depth) if resolved is Some && !self.current_thread_hint => depth,
            _ => 0,
        }
    }

    /// The callbacks to install, in order.
    pub fn callback_kinds(&self) -> (res: Vec<CallbackKind>)
        ensures
            res@ == self.kinds(),
            res@.no_duplicates(),
            forall|kind: CallbackKind| #[trigger]
                res@.contains(kind) <==> match kind {
                    CallbackKind::TaskSpawn | CallbackKind::TaskTerminate => self.task_tracking,
                    CallbackKind::ThreadStart | CallbackKind::ThreadStop => self.thread_tracking,
                    _ => true,
                },
    {
        let mut res: Vec<CallbackKind> = Vec::new();
        res.push(CallbackKind::ThreadPark);
        res.push(CallbackKind::ThreadUnpark);
        res.push(CallbackKind::BeforeTaskPoll);
        res.push(CallbackKind::AfterTaskPoll);
        if self.task_tracking {
            res.push(CallbackKind::TaskSpawn);
            res.push(CallbackKind::TaskTerminate);
        }
        if self.thread_tracking {
            res.push(CallbackKind::ThreadStart);
            res.push(CallbackKind::ThreadStop);
        }
        assert(res@ =~= self.kinds());
        proof {
            law_callbacks_follow_what_is_tracked(*self);
        }
        res
    }

    /// Whether callbacks have to look up which worker they run on.
    pub fn needs_resolution(&self) -> (res: bool)
        ensures
            res == !self.current_thread_hint,
    {
        !self.current_thread_hint
    }

    /// The worker that an event is attributed to.
    pub fn worker_id(&self, resolved: Option<usize>) -> (res: WorkerId)
        ensures
            res == self.worker(resolved),
            self.current_thread_hint ==> res == WorkerId::Worker(self.worker_base as u64),
            !self.current_thread_hint ==> (resolved matches Some(id) ==> res == WorkerId::Worker(
                id as u64,
            )),
            !self.current_thread_hint && resolved is None ==> res is Unknown,
    {
        if self.current_thread_hint {
            return WorkerId::from(self.worker_base as usize);
        }
        match resolved {
            Some(id) => WorkerId::from(id),
            None => WorkerId::Unknown,
        }
    }

    /// The index within the runtime of the worker whose local queue is to be
    /// measured: known once the worker is resolved and the runtime's metrics
    /// are in place.
    pub fn local_queue_index(&self, resolved: Option<usize>, metrics_ready: bool) -> (res: Option<
        usize,
    >)
        requires
            self.queue_index(resolved, metrics_ready) matches Some(i) ==> i >= 0,
        ensures
            res is Some == self.queue_index(resolved, metrics_ready) is Some,
            res matches Some(i) ==> Some(i as int) == self.queue_index(resolved, metrics_ready),
    {
        match resolved {
            Some(id) => {
                if !self.current_thread_hint && metrics_ready {
                    Some(id - self.worker_base as usize)
                } else {
                    None
                }
            },
            None => None,
        }
    }

    fn reported_depth(&self, resolved: Option<usize>, measured: Option<usize>) -> (res: usize)
        ensures
            res == self.queue_depth(resolved, measured),
    {
        match measured {
            Some(depth) => if resolved.is_some() && !self.current_thread_hint {
                depth
            } else {
                0
            },
            None => 0,
        }
    }

    /// The plan that a callback goes by: the one it was installed with, until
    /// the runtime is registered and has a plan of its own. A callback that knew
    /// its worker from the start goes on as it is.
    pub fn in_force(&self, registered: Option<CallbackPlan>) -> (res: CallbackPlan)
        ensures
            res == (match registered {
                Some(plan) if !self.current_thread_hint => plan,
                _ => *self,
            }),
    {
        match registered {
            Some(plan) => if self.current_thread_hint {
                *self
            } else {
                plan
            },
            None => *self,
        }
    }

    /// A worker thread parks: the event to record, and what to remember until
    /// the thread wakes up.
    pub fn thread_park(&self, readings: ThreadReadings, parked: ParkedSchedWait) -> (res: (
        RawEvent,
        ParkedSchedWait,
    ))
        ensures
            res.0 == (RawEvent::WorkerPark {
                timestamp_nanos: readings.timestamp_nanos,
                worker_id: self.worker(readings.resolved_worker),
                worker_local_queue_depth: self.queue_depth(
                    readings.resolved_worker,
                    readings.local_queue_depth,
                ),
                cpu_time_nanos: readings.cpu_time_nanos,
            }),
            res.1 == parked.after_park(readings.sched_wait_nanos),
    {
        let event = RawEvent::WorkerPark {
            timestamp_nanos: readings.timestamp_nanos,
            worker_id: self.worker_id(readings.resolved_worker),
            worker_local_queue_depth: self.reported_depth(
                readings.resolved_worker,
                readings.local_queue_depth,
            ),
            cpu_time_nanos: readings.cpu_time_nanos,
        };
        (event, parked.park(readings.sched_wait_nanos))
    }

    /// A worker thread wakes up: the event to record.
    pub fn thread_unpark(&self, readings: ThreadReadings, parked: ParkedSchedWait) -> (res:
        RawEvent)
        ensures
            res == (RawEvent::WorkerUnpark {
                timestamp_nanos: readings.timestamp_nanos,
                worker_id: self.worker(readings.resolved_worker),
                worker_local_queue_depth: self.queue_depth(
                    readings.resolved_worker,
                    readings.local_queue_depth,
                ),
                cpu_time_nanos: readings.cpu_time_nanos,
                sched_wait_delta_nanos: parked.wait_delta(readings.sched_wait_nanos) as u64,
            }),
    {
        RawEvent::WorkerUnpark {
            timestamp_nanos: readings.timestamp_nanos,
            worker_id: self.worker_id(readings.resolved_worker),
            worker_local_queue_depth: self.reported_depth(
                readings.resolved_worker,
                readings.local_queue_depth,
            ),
            cpu_time_nanos: readings.cpu_time_nanos,
            sched_wait_delta_nanos: parked.unpark(readings.sched_wait_nanos),
        }
    }

    /// The event recorded before a task is polled.
    pub fn before_task_poll(
        &self,
        timestamp_nanos: u64,
        resolved: Option<usize>,
        local_queue_depth: Option<usize>,
        task_id: TaskId,
        location: SpawnLocation,
    ) -> (res: RawEvent)
        ensures
            res == (RawEvent::PollStart {
                timestamp_nanos,
                worker_id: self.worker(resolved),
                worker_local_queue_depth: self.queue_depth(resolved, local_queue_depth),
                task_id,
                location,
            }),
    {
        RawEvent::PollStart {
            timestamp_nanos,
            worker_id: self.worker_id(resolved),
            worker_local_queue_depth: self.reported_depth(resolved, local_queue_depth),
            task_id,
            location,
        }
    }

    /// The event recorded after a task was polled.
    pub fn after_task_poll(&self, timestamp_nanos: u64, resolved: Option<usize>) -> (res: RawEvent)
        ensures
            res == (RawEvent::PollEnd { timestamp_nanos, worker_id: self.worker(resolved) }),
    {
        RawEvent::PollEnd { timestamp_nanos, worker_id: self.worker_id(resolved) }
    }
}

/// The event recorded when a task is spawned.
pub fn task_spawn_event(timestamp_nanos: u64, task_id: TaskId, location: SpawnLocation) -> (res:
    RawEvent)
    ensures
        res == (RawEvent::TaskSpawn { timestamp_nanos, task_id, location }),
{
    RawEvent::TaskSpawn { timestamp_nanos, task_id, location }
}

/// The event recorded when a task terminates.
pub fn task_terminate_event(timestamp_nanos: u64, task_id: TaskId) -> (res: RawEvent)
    ensures
        res == (RawEvent::TaskTerminate { timestamp_nanos, task_id }),
{
    RawEvent::TaskTerminate { timestamp_nanos, task_id }
}

/// What a park or unpark callback reads on the thread it runs on.
#[derive(Debug, Clone, Copy, PartialEq, Eq)]
pub struct ThreadReadings {
    /// Monotonic clock.
    pub timestamp_nanos: u64,
    /// Flat ID of the worker that the lookup gave, if any.
    pub resolved_worker: Option<usize>,
    /// Depth of the worker's local queue, if it was measured.
    pub local_queue_depth: Option<usize>,
    /// CPU time of the thread.
    pub cpu_time_nanos: u64,
    /// Time that the thread has waited for a CPU, if it could be read.
    pub sched_wait_nanos: Option<u64>,
}

/// How long a thread had waited for a CPU, in all, when it last parked.
#[derive(Debug, Clone, Copy, PartialEq, Eq, Structural)]
pub struct ParkedSchedWait {
    pub wait_time_nanos: u64,
}

impl ParkedSchedWait {
    /// Nothing waited so far.
    pub fn new() -> (res: ParkedSchedWait)
        ensures
            res.wait_time_nanos == 0,
    {
        ParkedSchedWait { wait_time_nanos: 0 }
    }

    /// What is remembered once the thread has parked.
    pub open spec fn after_park(self, reading: Option<u64>) -> ParkedSchedWait {
        match reading {
            Some(nanos) => ParkedSchedWait { wait_time_nanos: nanos },
            None => self,
        }
    }

    /// The thread parks: remember its wait time, if it could be read.
    pub fn park(self, reading: Option<u64>) -> (res: ParkedSchedWait)
        ensures
            res == self.after_park(reading),
    {
        match reading {
            Some(nanos) => ParkedSchedWait { wait_time_nanos: nanos },
            None => self,
        }
    }

    /// How far the wait time has moved on since the thread parked.
    pub open spec fn wait_delta(self, reading: Option<u64>) -> int {
        match reading {
            Some(nanos) if nanos > self.wait_time_nanos => nanos - self.wait_time_nanos,
            _ => 0,
        }
    }

    /// The thread wakes up: how long it waited for a CPU since it parked. 0 if
    /// the wait time cannot be read or has not moved on.
    pub fn unpark(self, reading: Option<u64>) -> (res: u64)
        ensures
            res == self.wait_delta(reading),
    {
        match reading {
            Some(nanos) => nanos.saturating_sub(self.wait_time_nanos),
            None => 0,
        }
    }
}

/// Whatever was remembered before, an unpark reports how far the wait time has
/// moved on since the park before it, and 0 if it ran backwards.
pub proof fn law_unpark_reports_the_wait_since_park(
    before: ParkedSchedWait,
    at_park: u64,
    at_unpark: u64,
)
    ensures
        before.after_park(Some(at_park)).wait_delta(Some(at_unpark)) == (if at_park <= at_unpark {
            at_unpark - at_park
        } else {
            0
        }),
{
}

/// For the one worker of a `current_thread` runtime the constant worker ID is
/// the ID that the lookup would give.
pub proof fn law_constant_id_agrees_with_lookup(plan: CallbackPlan, resolved: Option<usize>)
    requires
        plan.current_thread_hint,
    ensures
        plan.worker(resolved) == (CallbackPlan { current_thread_hint: false, ..plan }).worker(
            Some(plan.worker_base as usize),
        ),
{
}

/// Callbacks of a runtime with `worker_count` workers attribute events to no
/// worker outside the runtime's range, and measure no queue outside it.
pub proof fn law_events_stay_in_the_runtimes_range(
    plan: CallbackPlan,
    worker_count: nat,
    resolved: Option<usize>,
    metrics_ready: bool,
)
    requires
        worker_count >= 1,
        resolved matches Some(id) ==> plan.worker_base <= id < plan.worker_base + worker_count,
    ensures
        plan.worker(resolved) matches WorkerId::Worker(id) ==> plan.worker_base <= id
            < plan.worker_base + worker_count,
        plan.worker(resolved) is Unknown <==> !plan.current_thread_hint && resolved is None,
        !(plan.worker(resolved) is Blocking),
        plan.queue_index(resolved, metrics_ready) matches Some(i) ==> 0 <= i < worker_count,
{
}

/// An event without a worker, and an event of a constant worker, report no
/// queue.
pub proof fn law_only_resolved_workers_report_a_queue(
    plan: CallbackPlan,
    resolved: Option<usize>,
    measured: Option<usize>,
)
    ensures
        plan.worker(resolved) is Unknown ==> plan.queue_depth(resolved, measured) == 0,
        plan.current_thread_hint ==> plan.queue_depth(resolved, measured) == 0,
        plan.queue_index(resolved, true) is None ==> plan.queue_depth(resolved, measured) == 0,
{
}

/// Callbacks of runtimes whose ranges do not overlap never attribute events to
/// the same worker.
pub proof fn law_events_of_disjoint_runtimes_are_told_apart(
    a: CallbackPlan,
    a_count: nat,
    a_resolved: Option<usize>,
    b: CallbackPlan,
    b_count: nat,
    b_resolved: Option<usize>,
)
    requires
        a_count >= 1,
        b_count >= 1,
        a.worker_base + a_count <= b.worker_base,
        a_resolved matches Some(id) ==> a.worker_base <= id < a.worker_base + a_count,
        b_resolved matches Some(id) ==> b.worker_base <= id < b.worker_base + b_count,
    ensures
        a.worker(a_resolved) is Worker && b.worker(b_resolved) is Worker ==> a.worker(a_resolved)
            != b.worker(b_resolved),
{
}

/// The four core callbacks are installed in any case, the two that track tasks
/// if and only if tasks are tracked, and the two that follow threads if and only
/// if threads are followed. None is installed twice. The core callbacks come
/// first, and those that follow threads come last.
pub proof fn law_callbacks_follow_what_is_tracked(plan: CallbackPlan)
    ensures
        plan.kinds().contains(CallbackKind::ThreadPark),
        plan.kinds().contains(CallbackKind::ThreadUnpark),
        plan.kinds().contains(CallbackKind::BeforeTaskPoll),
        plan.kinds().contains(CallbackKind::AfterTaskPoll),
        plan.kinds().contains(CallbackKind::TaskSpawn) <==> plan.task_tracking,
        plan.kinds().contains(CallbackKind::TaskTerminate) <==> plan.task_tracking,
        plan.kinds().contains(CallbackKind::ThreadStart) <==> plan.thread_tracking,
        plan.kinds().contains(CallbackKind::ThreadStop) <==> plan.thread_tracking,
        plan.kinds().no_duplicates(),
        plan.kinds().take(4) == seq![
            CallbackKind::ThreadPark,
            CallbackKind::ThreadUnpark,
            CallbackKind::BeforeTaskPoll,
            CallbackKind::AfterTaskPoll,
        ],
        plan.task_tracking ==> plan.kinds().subrange(4, 6) == seq![
            CallbackKind::TaskSpawn,
            CallbackKind::TaskTerminate,
        ],
        plan.thread_tracking ==> plan.kinds().skip(plan.kinds().len() - 2) == seq![
            CallbackKind::ThreadStart,
            CallbackKind::ThreadStop,
        ],
{
    let kinds = plan.kinds();
    assert(kinds[0] == CallbackKind::ThreadPark);
    assert(kinds[1] == CallbackKind::ThreadUnpark);
    assert(kinds[2] == CallbackKind::BeforeTaskPoll);
    assert(kinds[3] == CallbackKind::AfterTaskPoll);
    if plan.task_tracking {
        assert(kinds[4] == CallbackKind::TaskSpawn);
        assert(kinds[5] == CallbackKind::TaskTerminate);
    }
    if plan.thread_tracking {
        assert(kinds[kinds.len() - 2] == CallbackKind::ThreadStart);
        assert(kinds[kinds.len() - 1] == CallbackKind::ThreadStop);
    }
}

/// Where the plan makes a lookup, an event is attributed to the very worker that
/// the lookup gave, whichever it is, and to no worker if it gave none. Where the
/// plan makes none, every event is attributed to the first worker of the range.
pub proof fn law_events_name_the_resolved_worker(plan: CallbackPlan, id: usize)
    ensures
        !plan.current_thread_hint ==> plan.worker(Some(id)) == WorkerId::Worker(id as u64),
        !plan.current_thread_hint ==> plan.worker(None) == WorkerId::Unknown,
        plan.current_thread_hint ==> plan.worker(Some(id)) == WorkerId::Worker(
            plan.worker_base as u64,
        ),
        plan.current_thread_hint ==> plan.worker(None) == WorkerId::Worker(plan.worker_base as u64),
{
}

/// Events of two workers of one runtime never name the same worker.
pub proof fn law_workers_of_a_runtime_are_told_apart(plan: CallbackPlan, a: usize, b: usize)
    requires
        !plan.current_thread_hint,
        a != b,
    ensures
        plan.worker(Some(a)) != plan.worker(Some(b)),
        plan.worker(Some(a)) != plan.worker(None),
{
}

/// The queue that is measured is that of the worker that the event names: its
/// index within the runtime lies as far above 0 as the worker's ID lies above
/// the first of the range. None is measured before the metrics are in place,
/// without a resolved worker, or by a plan that makes no lookup.
pub proof fn law_the_queue_of_the_named_worker_is_measured(plan: CallbackPlan, id: usize)
    ensures
        !plan.current_thread_hint ==> {
            &&& plan.queue_index(Some(id), true) is Some
            &&& plan.worker(Some(id)) == WorkerId::Worker(
                (plan.worker_base + plan.queue_index(Some(id), true)->0) as u64,
            )
        },
        plan.current_thread_hint ==> plan.queue_index(Some(id), true) is None,
        plan.queue_index(Some(id), false) is None,
        plan.queue_index(None, true) is None,
        plan.queue_index(None, false) is None,
{
}

/// Where a worker was resolved and its queue measured, the event reports just
/// that depth, however deep the queue is. In every other case it reports 0.
pub proof fn law_measured_depths_are_reported(plan: CallbackPlan, id: usize, depth: usize)
    ensures
        !plan.current_thread_hint ==> plan.queue_depth(Some(id), Some(depth)) == depth,
        plan.current_thread_hint ==> plan.queue_depth(Some(id), Some(depth)) == 0,
        plan.queue_depth(Some(id), None) == 0,
        plan.queue_depth(None, Some(depth)) == 0,
        plan.queue_depth(None, None) == 0,
{
}

/// Registration of a runtime without a constant worker changes nothing of its
/// plan. A constant worker ends the lookup, and leaves the range and the
/// callbacks as they are.
pub proof fn law_settling_ends_the_lookup(plan: CallbackPlan, resolved: Option<usize>)
    ensures
        plan.settled(false) == plan,
        plan.settled(true).current_thread_hint,
        plan.settled(true).worker_base == plan.worker_base,
        plan.settled(true).task_tracking == plan.task_tracking,
        plan.settled(true).thread_tracking == plan.thread_tracking,
        plan.settled(true).kinds() == plan.kinds(),
        plan.settled(true).worker(resolved) == WorkerId::Worker(plan.worker_base as u64),
{
}

/// A park remembers the wait time that it read, and keeps what was remembered
/// where it could read none. What an unpark reports and what was remembered add
/// up to what the unpark read, unless the wait time ran backwards or could not be
/// read: it reports 0 for these.
pub proof fn law_the_wait_adds_up(parked: ParkedSchedWait, reading: u64)
    ensures
        parked.after_park(Some(reading)).wait_time_nanos == reading,
        parked.after_park(None).wait_time_nanos == parked.wait_time_nanos,
        reading >= parked.wait_time_nanos ==> parked.wait_time_nanos + parked.wait_delta(
            Some(reading),
        ) == reading,
        reading < parked.wait_time_nanos ==> parked.wait_delta(Some(reading)) == 0,
        parked.wait_delta(None) == 0,
{
}

/// The list of callbacks to install holds the task-tracking callbacks if and
/// only if tasks are tracked, the callbacks that follow threads if and only if
/// threads are followed, and the core callbacks in any case.
pub proof fn law_the_installed_callbacks(plan: CallbackPlan, installed: Vec<CallbackKind>)
    requires
        call_ensures(CallbackPlan::callback_kinds, (&plan,), installed),
    ensures
        installed@.contains(CallbackKind::TaskSpawn) <==> plan.task_tracking,
        installed@.contains(CallbackKind::TaskTerminate) <==> plan.task_tracking,
        installed@.contains(CallbackKind::ThreadStart) <==> plan.thread_tracking,
        installed@.contains(CallbackKind::ThreadStop) <==> plan.thread_tracking,
        installed@.contains(CallbackKind::ThreadPark),
        installed@.contains(CallbackKind::ThreadUnpark),
        installed@.contains(CallbackKind::BeforeTaskPoll),
        installed@.contains(CallbackKind::AfterTaskPoll),
        installed@.no_duplicates(),
{
    law_callbacks_follow_what_is_tracked(plan);
}

/// A callback goes by the plan of the registered runtime from the registration
/// on. Before that, and where it needs no lookup anyway, it goes by the plan it
/// was installed with.
pub proof fn law_the_registered_plan_takes_over(
    installed: CallbackPlan,
    registered: CallbackPlan,
    before: CallbackPlan,
    after: CallbackPlan,
)
    requires
        call_ensures(CallbackPlan::in_force, (&installed, None::<CallbackPlan>), before),
        call_ensures(CallbackPlan::in_force, (&installed, Some(registered)), after),
    ensures
        before == installed,
        !installed.current_thread_hint ==> after == registered,
        installed.current_thread_hint ==> after == installed,
{
}

/// A thread that parks and wakes up again as the same worker: both events name
/// that worker, and carry the time, the queue and the CPU time that were read for
/// them. The second one tells how far the wait for a CPU has moved on between the
/// two readings.
pub proof fn law_a_park_and_its_unpark(
    plan: CallbackPlan,
    before: ParkedSchedWait,
    id: usize,
    at_park: ThreadReadings,
    at_unpark: ThreadReadings,
    park: (RawEvent, ParkedSchedWait),
    unpark: RawEvent,
)
    requires
        !plan.current_thread_hint,
        at_park.resolved_worker == Some(id),
        at_unpark.resolved_worker == Some(id),
        at_park.local_queue_depth is Some,
        at_unpark.local_queue_depth is Some,
        at_park.sched_wait_nanos is Some,
        at_unpark.sched_wait_nanos is Some,
        at_park.sched_wait_nanos->0 <= at_unpark.sched_wait_nanos->0,
        call_ensures(CallbackPlan::thread_park, (&plan, at_park, before), park),
        call_ensures(CallbackPlan::thread_unpark, (&plan, at_unpark, park.1), unpark),
    ensures
        park.0 == (RawEvent::WorkerPark {
            timestamp_nanos: at_park.timestamp_nanos,
            worker_id: WorkerId::Worker(id as u64),
            worker_local_queue_depth: at_park.local_queue_depth->0,
            cpu_time_nanos: at_park.cpu_time_nanos,
        }),
        unpark == (RawEvent::WorkerUnpark {
            timestamp_nanos: at_unpark.timestamp_nanos,
            worker_id: WorkerId::Worker(id as u64),
            worker_local_queue_depth: at_unpark.local_queue_depth->0,
            cpu_time_nanos: at_unpark.cpu_time_nanos,
            sched_wait_delta_nanos: (at_unpark.sched_wait_nanos->0
                - at_park.sched_wait_nanos->0) as u64,
        }),
{
}

/// The events before and after a poll on one worker name that worker, each with
/// the time it was recorded at, and the first one the task, its place of spawning
/// and the worker's queue.
pub proof fn law_a_poll_and_its_end(
    plan: CallbackPlan,
    id: usize,
    depth: usize,
    task_id: TaskId,
    location: SpawnLocation,
    start_nanos: u64,
    start: RawEvent,
    end_nanos: u64,
    end: RawEvent,
)
    requires
        !plan.current_thread_hint,
        call_ensures(
            CallbackPlan::before_task_poll,
            (&plan, start_nanos, Some(id), Some(depth), task_id, location),
            start,
        ),
        call_ensures(CallbackPlan::after_task_poll, (&plan, end_nanos, Some(id)), end),
    ensures
        start == (RawEvent::PollStart {
            timestamp_nanos: start_nanos,
            worker_id: WorkerId::Worker(id as u64),
            worker_local_queue_depth: depth,
            task_id,
            location,
        }),
        end == (RawEvent::PollEnd {
            timestamp_nanos: end_nanos,
            worker_id: WorkerId::Worker(id as u64),
        }),
{
}

} // verus!
