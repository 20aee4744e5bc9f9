use std::collections::HashSet;
use std::sync::{Arc, Mutex};
use std::time::Duration;
use tokio::runtime::{Builder, Runtime};
use traced_runtime_group::batch::RuntimeBatch;
use traced_runtime_group::callbacks::{CallbackPlan, ParkedSchedWait, ThreadReadings};
use traced_runtime_group::event::{RawEvent, SpawnLocation, TaskId, WorkerId};
use traced_runtime_group::group::{RegisterError, TracedRuntimeGroup};

/// Build a `current_thread` builder with time + IO enabled.
fn current_thread() -> Builder {
    let mut b = Builder::new_current_thread();
    b.enable_all();
    b
}

fn multi_thread(workers: usize) -> Builder {
    let mut b = Builder::new_multi_thread();
    b.worker_threads(workers).enable_all();
    b
}

/// Extract `RuntimeDef` events as `(runtime_index, worker_base, worker_count)`
/// sorted by `runtime_index`.
fn runtime_defs(events: &[RawEvent]) -> Vec<(u8, u8, u8)> {
    let mut defs: Vec<_> = events
        .iter()
        .filter_map(|e| match e {
            RawEvent::RuntimeDef {
                runtime_index,
                worker_base,
                worker_count,
                ..
            } => Some((*runtime_index, *worker_base, *worker_count)),
            _ => None,
        })
        .collect();
    defs.sort_by_key(|(idx, _, _)| *idx);
    defs
}

/// Collect the set of worker IDs from PollStart events, excluding sentinels.
fn poll_worker_ids(events: &[RawEvent]) -> HashSet<u64> {
    events
        .iter()
        .filter_map(|e| match e {
            RawEvent::PollStart {
                worker_id: WorkerId::Worker(id),
                ..
            } => Some(*id),
            _ => None,
        })
        .collect()
}

const HERE: SpawnLocation = SpawnLocation {
    file: "work.rs",
    line: 7,
    column: 3,
};

/// The event that a poll on worker `index` of a runtime records.
fn poll(plan: &CallbackPlan, index: usize) -> RawEvent {
    let resolved = Some(plan.worker_base as usize + index);
    let at = plan.local_queue_index(resolved, true);
    assert_eq!(
        at,
        if plan.needs_resolution() {
            Some(index)
        } else {
            None
        }
    );
    plan.before_task_poll(1, resolved, at.map(|_| 2), TaskId(9), HERE)
}

type Group = TracedRuntimeGroup<(), (), (), ()>;
type Recorded = Arc<Mutex<Vec<RawEvent>>>;

/// Have the runtime's threads record an event when they park, by the plan that
/// holds at that time.
fn record_parks(builder: &mut Builder, plan: CallbackPlan, events: &Recorded) -> Arc<Mutex<CallbackPlan>> {
    let events = events.clone();
    let shared = Arc::new(Mutex::new(plan));
    let current = shared.clone();
    builder.on_thread_park(move || {
        let plan = *current.lock().unwrap();
        let readings = ThreadReadings {
            timestamp_nanos: 1,
            resolved_worker: None,
            local_queue_depth: None,
            cpu_time_nanos: 0,
            sched_wait_nanos: None,
        };
        let (event, _) = plan.thread_park(readings, ParkedSchedWait::new());
        events.lock().unwrap().push(event);
    });
    shared
}

/// Install callbacks, build the runtime and register it under a name. Gives the
/// runtime and the plan of its callbacks.
fn register_named(
    group: &mut Group,
    name: &str,
    mut builder: Builder,
    events: &Recorded,
) -> (Runtime, CallbackPlan) {
    let index = group.runtime_count();
    let shared = record_parks(&mut builder, group.named_plan(), events);
    let runtime = group.register_named(name, builder.build()).unwrap();
    let plan = group.runtime_plan(index).unwrap();
    *shared.lock().unwrap() = plan;
    (runtime, plan)
}

/// Build and register a batch, as far as it gets.
fn register_group(
    group: &mut Group,
    name: &str,
    builders: Vec<Builder>,
    events: &Recorded,
) -> (RuntimeBatch, Vec<CallbackPlan>) {
    let mut builders = builders.into_iter();
    let mut batch = group.register_group(name);
    let mut plans = Vec::new();
    while let Some(plan) = group.batch_plan(&batch) {
        let Some(mut builder) = builders.next() else {
            break;
        };
        record_parks(&mut builder, plan, events);
        plans.push(plan);
        batch.register(group, builder.build());
    }
    (batch, plans)
}

fn recorder() -> Recorded {
    Arc::new(Mutex::new(Vec::new()))
}

/// The workers that parked since the last call.
fn parked_workers(events: &Recorded) -> HashSet<WorkerId> {
    events
        .lock()
        .unwrap()
        .drain(..)
        .filter_map(|e| match e {
            RawEvent::WorkerPark { worker_id, .. } => Some(worker_id),
            _ => None,
        })
        .collect()
}

async fn do_traced_work() {
    tokio::spawn(async { tokio::task::yield_now().await })
        .await
        .unwrap();
    tokio::time::sleep(Duration::from_millis(2)).await;
}

#[test]
fn multiple_current_thread_runtimes_produce_unified_trace() {
    let recorded = recorder();
    let mut group = TracedRuntimeGroup::builder()
        .with_task_tracking(true)
        .build(())
        .unwrap();

    let (rt0, plan0) = register_named(&mut group, "rt0", current_thread(), &recorded);
    let (rt1, plan1) = register_named(&mut group, "rt1", current_thread(), &recorded);
    let (rt2, plan2) = register_named(&mut group, "rt2", current_thread(), &recorded);

    let started = group.start(Duration::from_secs(1));

    for (w, rt) in [(0, &rt0), (1, &rt1), (2, &rt2)] {
        rt.block_on(do_traced_work());
        assert_eq!(
            parked_workers(&recorded),
            HashSet::from([WorkerId::Worker(w)])
        );
    }

    let mut events = started.runtime_defs(1);
    for plan in [plan0, plan1, plan2] {
        events.push(poll(&plan, 0));
    }

    // 3 current_thread runtimes: each gets 1 worker, sequential bases.
    let defs = runtime_defs(&events);
    assert_eq!(
        defs,
        vec![(0, 0, 1), (1, 1, 1), (2, 2, 1)],
        "expected 3 current_thread RuntimeDefs with sequential worker_base; got {defs:?}"
    );

    // PollStart events for workers 0, 1, and 2.
    let workers = poll_worker_ids(&events);
    for w in 0..3u64 {
        assert!(
            workers.contains(&w),
            "expected PollStart events for worker {w}; saw workers {workers:?}"
        );
    }
}

#[test]
fn mixed_multi_thread_and_current_thread_worker_ids_dont_overlap() {
    let recorded = recorder();
    let mut group = TracedRuntimeGroup::builder()
        .with_task_tracking(true)
        .build(())
        .unwrap();

    // multi_thread with 2 workers: workers 0, 1
    let (rt_mt, plan_mt) = register_named(&mut group, "mt", multi_thread(2), &recorded);
    // current_thread: worker 2
    let (rt_ct1, plan_ct1) = register_named(&mut group, "ct1", current_thread(), &recorded);
    // current_thread: worker 3
    let (rt_ct2, plan_ct2) = register_named(&mut group, "ct2", current_thread(), &recorded);

    let started = group.start(Duration::from_secs(1));

    rt_mt.block_on(async {
        let mut handles = Vec::new();
        for _ in 0..20 {
            handles.push(tokio::spawn(async { tokio::task::yield_now().await }));
        }
        for h in handles {
            h.await.unwrap();
        }
    });
    drop(rt_mt);
    // Nothing told the workers of the first runtime apart.
    for worker in parked_workers(&recorded) {
        assert_eq!(worker, WorkerId::Unknown);
    }
    for (w, rt) in [(2, &rt_ct1), (3, &rt_ct2)] {
        rt.block_on(do_traced_work());
        assert_eq!(
            parked_workers(&recorded),
            HashSet::from([WorkerId::Worker(w)])
        );
    }

    let mut events = started.runtime_defs(1);
    events.push(poll(&plan_mt, 0));
    events.push(poll(&plan_mt, 1));
    events.push(poll(&plan_ct1, 0));
    events.push(poll(&plan_ct2, 0));

    // mt=0 (2 workers), ct1=2, ct2=3.
    let defs = runtime_defs(&events);
    assert_eq!(
        defs,
        vec![(0, 0, 2), (1, 2, 1), (2, 3, 1)],
        "unexpected RuntimeDef layout: {defs:?}"
    );

    // No worker ID outside the valid range [0..4).
    let workers = poll_worker_ids(&events);
    let valid: HashSet<u64> = (0..4).collect();
    let invalid: HashSet<_> = workers.iter().filter(|w| !valid.contains(w)).collect();
    assert!(
        invalid.is_empty(),
        "found worker IDs outside valid range: {invalid:?}"
    );
    assert_eq!(workers, valid);
}

#[test]
fn queue_samples_tagged_with_runtime_index() {
    let recorded = recorder();
    let mut group = TracedRuntimeGroup::builder().build(()).unwrap();

    let (_rt0, _) = register_named(&mut group, "a", current_thread(), &recorded);
    let (rt1, _) = register_named(&mut group, "b", current_thread(), &recorded);
    // Tasks spawned from outside wait in the global queue until the runtime runs.
    for _ in 0..3 {
        rt1.spawn(async {});
    }

    let started = group.start(Duration::from_secs(1));
    let samples = started.runtimes.sample_queues();

    let sample_indices: HashSet<u8> = samples.iter().map(|s| s.runtime_index).collect();
    assert!(
        sample_indices.contains(&0),
        "expected QueueSample with runtime_index=0; got indices {sample_indices:?}"
    );
    assert!(
        sample_indices.contains(&1),
        "expected QueueSample with runtime_index=1; got indices {sample_indices:?}"
    );
    assert_eq!(samples.len(), 2);
    assert_eq!(samples[0].global_queue_depth, 0);
    assert_eq!(samples[1].global_queue_depth, 3);
}

#[test]
fn register_group_convenience() {
    let recorded = recorder();
    let mut group = TracedRuntimeGroup::builder().build(()).unwrap();

    let builders = (0..4).map(|_| current_thread()).collect();
    let (batch, plans) = register_group(&mut group, "workers", builders, &recorded);
    let runtimes = batch.finish().unwrap();

    assert_eq!(runtimes.len(), 4);

    let started = group.start(Duration::from_secs(1));

    for (w, rt) in runtimes.iter().enumerate() {
        rt.block_on(do_traced_work());
        assert_eq!(
            parked_workers(&recorded),
            HashSet::from([WorkerId::Worker(w as u64)])
        );
    }

    let mut events = started.runtime_defs(1);
    for plan in &plans {
        events.push(poll(plan, 0));
    }

    // 4 RuntimeDef events with sequential worker IDs 0-3.
    let defs = runtime_defs(&events);
    assert_eq!(
        defs,
        vec![(0, 0, 1), (1, 1, 1), (2, 2, 1), (3, 3, 1)],
        "expected 4 sequential RuntimeDefs; got {defs:?}"
    );

    // PollStart events for all 4 workers.
    let workers = poll_worker_ids(&events);
    for w in 0..4u64 {
        assert!(
            workers.contains(&w),
            "expected PollStart for worker {w}; saw {workers:?}"
        );
    }
}

#[test]
fn one_worker_gets_a_constant_id_either_way() {
    let mut group: Group = TracedRuntimeGroup::builder().build(()).unwrap();
    let _mt = group.register_named("mt", multi_thread(3).build()).unwrap();
    assert_eq!(group.current_thread_plan(), group.callback_plan(3, true));
    assert_eq!(group.named_plan(), group.callback_plan(3, false));
    let _named = group
        .register_named("named", current_thread().build())
        .unwrap();
    let _current = group
        .register_current_thread("current", current_thread().build())
        .unwrap();
    assert_eq!(group.runtime_plan(0), Some(group.callback_plan(0, false)));
    assert_eq!(group.runtime_plan(1), Some(group.callback_plan(3, true)));
    assert_eq!(group.runtime_plan(2), Some(group.callback_plan(4, true)));
    assert_eq!(group.runtime_plan(3), None);
    let plan = group.runtime_plan(1).unwrap();
    assert_eq!(plan.worker_id(None), WorkerId::Worker(3));
    assert_eq!(plan.worker_id(Some(0)), WorkerId::Worker(3));
}

#[test]
fn a_multi_thread_runtime_with_one_worker_is_looked_up() {
    let mut group: Group = TracedRuntimeGroup::builder().build(()).unwrap();
    let _named = group
        .register_named("named", multi_thread(1).build())
        .unwrap();
    let _current = group
        .register_current_thread("current", multi_thread(1).build())
        .unwrap();
    // Registered under a name, its queue is measured.
    let plan = group.runtime_plan(0).unwrap();
    assert_eq!(plan, group.callback_plan(0, false));
    assert_eq!(plan.local_queue_index(Some(0), true), Some(0));
    assert!(matches!(
        plan.before_task_poll(1, Some(0), Some(6), TaskId(9), HERE),
        RawEvent::PollStart {
            worker_id: WorkerId::Worker(0),
            worker_local_queue_depth: 6,
            ..
        }
    ));
    assert_eq!(group.runtime_plan(1), Some(group.callback_plan(1, true)));
}

#[test]
fn nothing_is_recorded_before_start() {
    let mut group = TracedRuntimeGroup::builder().build("untouched").unwrap();
    let _rt = group.register_named("a", current_thread().build()).unwrap();
    let mut batch = group.register_group("b");
    batch.register(&mut group, current_thread().build());
    assert!(!group.is_recording());
    let started = group.start(Duration::from_secs(1));
    assert!(started.recording);
    assert_eq!(started.writer, "untouched");
}

#[test]
fn definitions_describe_the_runtimes() {
    let mut group: Group = TracedRuntimeGroup::builder().build(()).unwrap();
    let _mt = group.register_named("api", multi_thread(3).build()).unwrap();
    let _one = group.register_named("one", multi_thread(1).build()).unwrap();
    let _ct = group
        .register_current_thread("background", current_thread().build())
        .unwrap();
    assert_eq!(group.runtime_count(), 3);
    assert_eq!(group.next_worker_id(), 5);

    let def = |index: u8, name: &str, base: u8, count: u8, flavor: &str| RawEvent::RuntimeDef {
        timestamp_nanos: 77,
        runtime_index: index,
        name: name.to_string(),
        worker_base: base,
        worker_count: count,
        flavor: flavor.to_string(),
    };
    let expected = vec![
        def(0, "api", 0, 3, "multi_thread"),
        def(1, "one", 3, 1, "current_thread"),
        def(2, "background", 4, 1, "current_thread"),
    ];
    assert_eq!(group.runtime_defs(77), expected);

    let started = group.start(Duration::from_secs(1));
    assert_eq!(started.runtime_defs(77), expected);
    assert_eq!(started.runtimes.runtime_defs(77), expected);
}

#[test]
fn definitions_repeat_with_a_new_timestamp() {
    let mut group: Group = TracedRuntimeGroup::builder().build(()).unwrap();
    let _rt = group
        .register_named("api", current_thread().build())
        .unwrap();
    let started = group.start(Duration::from_secs(1));
    let first = started.runtime_defs(1);
    let again = started.runtimes.runtime_defs(2);
    assert_eq!(runtime_defs(&again), runtime_defs(&first));
    assert!(matches!(
        first[0],
        RawEvent::RuntimeDef { timestamp_nanos: 1, .. }
    ));
    assert!(matches!(
        again[0],
        RawEvent::RuntimeDef { timestamp_nanos: 2, .. }
    ));
}

#[test]
fn current_thread_registration_refuses_more_workers() {
    let mut group: Group = TracedRuntimeGroup::builder().build(()).unwrap();
    let _first = group
        .register_named("first", current_thread().build())
        .unwrap();
    let refused = group.register_current_thread("mt", multi_thread(2).build());
    assert!(matches!(
        refused,
        Err(RegisterError::NotCurrentThread { workers: 2 })
    ));
    assert_eq!(group.runtime_count(), 1);
    assert_eq!(group.next_worker_id(), 1);
    let _one = group
        .register_current_thread("one", multi_thread(1).build())
        .unwrap();
    assert_eq!(group.next_worker_id(), 2);
}

#[test]
fn a_batch_ends_at_the_first_refusal() {
    let recorded = recorder();
    let mut group: Group = TracedRuntimeGroup::builder().build(()).unwrap();
    let builders = vec![
        current_thread(),
        current_thread(),
        multi_thread(3),
        current_thread(),
    ];
    let (batch, plans) = register_group(&mut group, "io", builders, &recorded);
    assert!(batch.has_ended());
    assert_eq!(batch.len(), 2);
    assert_eq!(group.batch_plan(&batch), None);
    // The fourth runtime is not built any more.
    assert_eq!(plans.len(), 3);
    assert!(matches!(
        batch.finish(),
        Err(RegisterError::NotCurrentThread { workers: 3 })
    ));
    assert_eq!(group.runtime_count(), 2);
    assert_eq!(group.next_worker_id(), 2);
    let names: Vec<String> = group
        .runtime_defs(0)
        .into_iter()
        .filter_map(|e| match e {
            RawEvent::RuntimeDef { name, .. } => Some(name),
            _ => None,
        })
        .collect();
    assert_eq!(names, vec!["io-0", "io-1"]);
}

#[test]
fn a_batch_ends_at_a_build_error() {
    let mut group: Group = TracedRuntimeGroup::builder().build(()).unwrap();
    let mut batch = group.register_group("io");
    batch.register(&mut group, current_thread().build());
    assert!(!batch.has_ended());
    let error = std::io::Error::new(std::io::ErrorKind::Other, "no more threads");
    batch.register(&mut group, Err(error));
    assert!(batch.has_ended());
    match batch.finish() {
        Err(RegisterError::Build(e)) => assert_eq!(e.to_string(), "no more threads"),
        _ => panic!("expected the build error"),
    }
    assert_eq!(runtime_defs(&group.runtime_defs(0)), vec![(0, 0, 1)]);
}

#[test]
fn a_batch_returns_its_runtimes_in_order() {
    let mut group: Group = TracedRuntimeGroup::builder().build(()).unwrap();
    let mut batch = group.register_group("io");
    for tasks in 0..3 {
        let built = current_thread().build();
        for _ in 0..tasks {
            built.as_ref().unwrap().spawn(async {});
        }
        batch.register(&mut group, built);
    }
    let runtimes = batch.finish().unwrap();
    let depths: Vec<usize> = runtimes
        .iter()
        .map(|rt| rt.handle().metrics().global_queue_depth())
        .collect();
    assert_eq!(depths, vec![0, 1, 2]);
    let sampled: Vec<(u8, usize)> = group
        .start(Duration::from_secs(1))
        .runtimes
        .sample_queues()
        .iter()
        .map(|s| (s.runtime_index, s.global_queue_depth))
        .collect();
    assert_eq!(sampled, vec![(0, 0), (1, 1), (2, 2)]);
}

#[test]
fn an_empty_batch_changes_nothing() {
    let group: Group = TracedRuntimeGroup::builder().build(()).unwrap();
    let batch = group.register_group("none");
    assert_eq!(batch.len(), 0);
    assert_eq!(group.batch_plan(&batch), Some(group.callback_plan(0, true)));
    assert!(batch.finish().unwrap().is_empty());
    assert_eq!(group.runtime_count(), 0);
}

#[test]
fn worker_ids_run_out() {
    let mut group: Group = TracedRuntimeGroup::builder().build(()).unwrap();
    let rt = current_thread().build().unwrap();
    group.add_runtime("large", 254, false, rt.handle().metrics());
    let refused = group.register_named("two", multi_thread(2).build());
    assert!(matches!(
        refused,
        Err(RegisterError::TooManyWorkers { workers: 2 })
    ));
    assert_eq!(group.next_worker_id(), 254);
    let _last = group
        .register_named("last", current_thread().build())
        .unwrap();
    assert_eq!(group.next_worker_id(), 255);
    assert!(matches!(
        group.register_named("none", current_thread().build()),
        Err(RegisterError::TooManyWorkers { workers: 1 })
    ));
    assert!(matches!(
        group.register_current_thread("none", current_thread().build()),
        Err(RegisterError::TooManyWorkers { workers: 1 })
    ));
    assert_eq!(
        runtime_defs(&group.runtime_defs(0)),
        vec![(0, 0, 254), (1, 254, 1)]
    );
}

#[test]
fn a_build_error_is_handed_on() {
    let mut group: Group = TracedRuntimeGroup::builder().build(()).unwrap();
    let error = std::io::Error::new(std::io::ErrorKind::Other, "no more file descriptors");
    match group.register_named("a", Err(error)) {
        Err(RegisterError::Build(e)) => assert_eq!(e.to_string(), "no more file descriptors"),
        _ => panic!("expected the build error"),
    }
    let error = std::io::Error::new(std::io::ErrorKind::Other, "no more threads");
    match group.register_current_thread("a", Err(error)) {
        Err(RegisterError::Build(e)) => assert_eq!(e.to_string(), "no more threads"),
        _ => panic!("expected the build error"),
    }
    assert_eq!(group.runtime_count(), 0);
}
