use traced_runtime_group::callbacks::{
    task_spawn_event, task_terminate_event, CallbackKind, CallbackPlan, ParkedSchedWait,
    ThreadReadings,
};
use traced_runtime_group::event::{RawEvent, SpawnLocation, TaskId, WorkerId};
use traced_runtime_group::flavor::RuntimeFlavor;
use traced_runtime_group::group::TracedRuntimeGroup;
use traced_runtime_group::names::batch_runtime_name;
use traced_runtime_group::roles::{ThreadRole, ThreadRoles};

const GENERAL: CallbackPlan = CallbackPlan {
    worker_base: 10,
    current_thread_hint: false,
    task_tracking: false,
    thread_tracking: false,
};

const CONSTANT: CallbackPlan = CallbackPlan {
    worker_base: 10,
    current_thread_hint: true,
    task_tracking: true,
    thread_tracking: true,
};

const HERE: SpawnLocation = SpawnLocation {
    file: "work.rs",
    line: 7,
    column: 3,
};

#[test]
fn task_tracking_adds_the_task_callbacks() {
    let core = [
        CallbackKind::ThreadPark,
        CallbackKind::ThreadUnpark,
        CallbackKind::BeforeTaskPoll,
        CallbackKind::AfterTaskPoll,
    ];
    let threads = [CallbackKind::ThreadStart, CallbackKind::ThreadStop];
    assert_eq!(GENERAL.callback_kinds(), core.to_vec());
    let followed = CallbackPlan {
        thread_tracking: true,
        ..GENERAL
    };
    let mut expected = core.to_vec();
    expected.extend(threads);
    assert_eq!(followed.callback_kinds(), expected);

    let mut expected = core.to_vec();
    expected.extend([CallbackKind::TaskSpawn, CallbackKind::TaskTerminate]);
    expected.extend(threads);
    assert_eq!(CONSTANT.callback_kinds(), expected);
}

#[test]
fn the_plan_follows_the_settings() {
    let group = TracedRuntimeGroup::builder()
        .with_task_tracking(true)
        .with_thread_tracking(true)
        .build(())
        .unwrap();
    assert_eq!(group.callback_plan(10, true), CONSTANT);
    let group = TracedRuntimeGroup::builder()
        .with_task_tracking(true)
        .with_task_tracking(false)
        .build(())
        .unwrap();
    assert_eq!(group.callback_plan(10, false), GENERAL);
}

#[test]
fn profilers_follow_the_threads() {
    let group = TracedRuntimeGroup::builder()
        .with_cpu_profiling("cpu")
        .build(())
        .unwrap();
    assert!(group.named_plan().thread_tracking);
    let group = TracedRuntimeGroup::builder()
        .with_sched_events("sched")
        .with_thread_tracking(false)
        .build(())
        .unwrap();
    assert!(group.named_plan().thread_tracking);
    let group = TracedRuntimeGroup::builder().build(()).unwrap();
    assert!(!group.named_plan().thread_tracking);
}

#[test]
fn workers_are_resolved_or_unknown() {
    assert!(GENERAL.needs_resolution());
    assert_eq!(GENERAL.worker_id(Some(12)), WorkerId::Worker(12));
    assert_eq!(GENERAL.worker_id(None), WorkerId::Unknown);
    assert_eq!(GENERAL.local_queue_index(Some(12), true), Some(2));
    assert_eq!(GENERAL.local_queue_index(Some(12), false), None);
    assert_eq!(GENERAL.local_queue_index(None, true), None);
    assert_eq!(WorkerId::from(3usize), WorkerId::Worker(3));
}

#[test]
fn the_constant_worker_needs_no_lookup() {
    assert!(!CONSTANT.needs_resolution());
    assert_eq!(CONSTANT.worker_id(None), WorkerId::Worker(10));
    assert_eq!(CONSTANT.worker_id(None), GENERAL.worker_id(Some(10)));
    assert_eq!(CONSTANT.local_queue_index(Some(10), true), None);
}

fn readings(resolved_worker: Option<usize>, sched_wait_nanos: Option<u64>) -> ThreadReadings {
    ThreadReadings {
        timestamp_nanos: 100,
        resolved_worker,
        local_queue_depth: Some(4),
        cpu_time_nanos: 50,
        sched_wait_nanos,
    }
}

#[test]
fn park_and_unpark_on_a_resolved_worker() {
    let (event, parked) = GENERAL.thread_park(readings(Some(11), Some(30)), ParkedSchedWait::new());
    assert_eq!(
        event,
        RawEvent::WorkerPark {
            timestamp_nanos: 100,
            worker_id: WorkerId::Worker(11),
            worker_local_queue_depth: 4,
            cpu_time_nanos: 50,
        }
    );
    assert_eq!(parked.wait_time_nanos, 30);
    assert_eq!(
        GENERAL.thread_unpark(readings(Some(11), Some(37)), parked),
        RawEvent::WorkerUnpark {
            timestamp_nanos: 100,
            worker_id: WorkerId::Worker(11),
            worker_local_queue_depth: 4,
            cpu_time_nanos: 50,
            sched_wait_delta_nanos: 7,
        }
    );
}

#[test]
fn an_unknown_worker_reports_no_queue() {
    let (park, parked) = GENERAL.thread_park(readings(None, None), ParkedSchedWait::new());
    assert_eq!(
        park,
        RawEvent::WorkerPark {
            timestamp_nanos: 100,
            worker_id: WorkerId::Unknown,
            worker_local_queue_depth: 0,
            cpu_time_nanos: 50,
        }
    );
    assert_eq!(
        GENERAL.thread_unpark(readings(None, None), parked),
        RawEvent::WorkerUnpark {
            timestamp_nanos: 100,
            worker_id: WorkerId::Unknown,
            worker_local_queue_depth: 0,
            cpu_time_nanos: 50,
            sched_wait_delta_nanos: 0,
        }
    );
    assert_eq!(
        GENERAL.before_task_poll(1, None, Some(5), TaskId(5), HERE),
        RawEvent::PollStart {
            timestamp_nanos: 1,
            worker_id: WorkerId::Unknown,
            worker_local_queue_depth: 0,
            task_id: TaskId(5),
            location: HERE,
        }
    );
}

#[test]
fn the_registered_plan_takes_over() {
    assert_eq!(GENERAL.in_force(None), GENERAL);
    assert_eq!(GENERAL.in_force(Some(CONSTANT)), CONSTANT);
    assert_eq!(CONSTANT.in_force(Some(GENERAL)), CONSTANT);
}

#[test]
fn the_constant_worker_reports_no_queue() {
    let (event, _) = CONSTANT.thread_park(readings(None, None), ParkedSchedWait::new());
    assert_eq!(
        event,
        RawEvent::WorkerPark {
            timestamp_nanos: 100,
            worker_id: WorkerId::Worker(10),
            worker_local_queue_depth: 0,
            cpu_time_nanos: 50,
        }
    );
}

#[test]
fn wait_time_that_cannot_be_read_is_no_wait() {
    let parked = ParkedSchedWait::new().park(Some(40));
    assert_eq!(parked.park(None), parked);
    assert_eq!(parked.unpark(None), 0);
    assert_eq!(parked.unpark(Some(39)), 0);
    assert_eq!(parked.unpark(Some(45)), 5);
}

#[test]
fn polls_and_tasks_are_recorded() {
    assert_eq!(
        GENERAL.before_task_poll(1, Some(10), None, TaskId(5), HERE),
        RawEvent::PollStart {
            timestamp_nanos: 1,
            worker_id: WorkerId::Worker(10),
            worker_local_queue_depth: 0,
            task_id: TaskId(5),
            location: HERE,
        }
    );
    assert_eq!(
        GENERAL.after_task_poll(2, None),
        RawEvent::PollEnd {
            timestamp_nanos: 2,
            worker_id: WorkerId::Unknown,
        }
    );
    assert_eq!(
        task_spawn_event(3, TaskId(5), HERE),
        RawEvent::TaskSpawn {
            timestamp_nanos: 3,
            task_id: TaskId(5),
            location: HERE,
        }
    );
    assert_eq!(
        task_terminate_event(4, TaskId(5)),
        RawEvent::TaskTerminate {
            timestamp_nanos: 4,
            task_id: TaskId(5),
        }
    );
}

#[test]
fn flavors_follow_the_worker_count() {
    assert_eq!(
        RuntimeFlavor::from_worker_count(1).as_str(),
        "current_thread"
    );
    assert_eq!(RuntimeFlavor::from_worker_count(2).as_str(), "multi_thread");
    assert_eq!(RuntimeFlavor::from_worker_count(0).as_str(), "multi_thread");
}

#[test]
fn batch_names_count_from_zero() {
    assert_eq!(batch_runtime_name("io-workers", 0), "io-workers-0");
    assert_eq!(batch_runtime_name("", 10), "-10");
    for i in [9, 99, 100, 1234567890, usize::MAX] {
        assert_eq!(batch_runtime_name("n", i), format!("n-{i}"));
    }
}

#[test]
fn threads_are_blocking_until_they_stop() {
    let mut roles = ThreadRoles::new();
    assert_eq!(roles.role(4), None);
    roles.thread_started(4);
    roles.thread_started(5);
    assert_eq!(roles.role(4), Some(ThreadRole::Blocking));
    roles.thread_resolved(4, 12);
    assert_eq!(roles.role(4), Some(ThreadRole::Worker(12)));
    roles.thread_stopped(4);
    assert_eq!(roles.role(4), None);
    assert_eq!(roles.role(5), Some(ThreadRole::Blocking));
    roles.thread_stopped(4);
}
