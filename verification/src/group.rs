//! A group of Tokio runtimes that share one trace stream.
use crate::background::{plan_services, Services, Settings};
use crate::batch::{BatchModel, RuntimeBatch};
use crate::callbacks::CallbackPlan;
use crate::event::{RawEvent, WorkerId};
use crate::flavor::RuntimeFlavor;
use crate::names::batch_name;
use crate::outside::{
    is_current_thread, num_workers, runs_on_current_thread, runtime_metrics, runtime_metrics_of,
    worker_count_of,
};
use crate::runtimes::{
    laid_out, law_worker_ranges_are_disjoint, law_worker_ranges_ascend,
    law_worker_ranges_leave_no_gap, lemma_layout_extends, lemma_no_more_runtimes_than_workers,
    placed, workers_end, RuntimeInfo, RuntimeModel, RuntimeSet, MAX_WORKERS,
};
use metrique_writer::BoxEntrySink;
use std::path::PathBuf;
use std::time::Duration;
use tokio::runtime::{Runtime, RuntimeMetrics};
use vstd::prelude::*;

verus! {

/// Builder for [`TracedRuntimeGroup`].
///
/// Construct via [`TracedRuntimeGroup::builder()`].
pub struct TracedRuntimeGroupBuilder<C, E, U> {
    settings: Settings<C, E, U>,
}

impl<C, E, U> View for TracedRuntimeGroupBuilder<C, E, U> {
    type V = Settings<C, E, U>;

    closed spec fn view(&self) -> Settings<C, E, U> {
        self.settings
    }
}

/// Manages telemetry across multiple Tokio runtimes sharing a single trace
/// stream.
///
/// Each runtime is assigned a contiguous range of flat worker IDs so that
/// events from different runtimes can be distinguished in the trace.
///
/// A runtime that is refused, or whose batch is, is dropped. Tokio forbids that
/// in asynchronous code, so runtimes are registered outside of it.
pub struct TracedRuntimeGroup<W, C, E, U> {
    runtimes: RuntimeSet,
    next_worker_id: u8,
    recording: bool,
    settings: Settings<C, E, U>,
    writer: W,
}

/// A group, with its runtimes as a sequence.
#[verifier::ext_equal]
pub struct GroupModel<W, C, E, U> {
    pub runtimes: Seq<RuntimeModel>,
    pub next_worker_id: nat,
    pub recording: bool,
    pub settings: Settings<C, E, U>,
    pub writer: W,
}

/// Why a runtime was not registered.
#[derive(Debug)]
pub enum RegisterError {
    /// The runtime could not be built.
    Build(std::io::Error),
    /// The runtime's workers do not fit into the range of flat worker IDs.
    TooManyWorkers { workers: usize },
    /// A runtime with one worker was asked for, and the runtime has another
    /// number of workers.
    NotCurrentThread { workers: usize },
}

impl<C, E, U> TracedRuntimeGroupBuilder<C, E, U> {
    /// Enable task-spawn / task-terminate event recording.
    pub fn with_task_tracking(self, enabled: bool) -> (res: Self)
        ensures
            res@ == (Settings { task_tracking_enabled: enabled, ..self@ }),
    {
        let mut settings = self.settings;
        settings.task_tracking_enabled = enabled;
        TracedRuntimeGroupBuilder { settings }
    }

    /// Follow the threads of the runtimes, as programs do that can profile them.
    /// With a profiler configured the threads are followed in any case.
    pub fn with_thread_tracking(self, enabled: bool) -> (res: Self)
        ensures
            res@ == (Settings { thread_tracking_enabled: enabled, ..self@ }),
    {
        let mut settings = self.settings;
        settings.thread_tracking_enabled = enabled;
        TracedRuntimeGroupBuilder { settings }
    }

    /// Set the trace output path. Required for background worker support
    /// (S3 upload, offline symbolization).
    pub fn with_trace_path<P: Into<PathBuf>>(self, path: P) -> (res: Self)
        ensures
            res@ == (Settings { trace_path: res@.trace_path, ..self@ }),
            res@.trace_path is Some,
            call_ensures(P::into, (path,), res@.trace_path->0),
    {
        let mut settings = self.settings;
        settings.trace_path = Some(path.into());
        TracedRuntimeGroupBuilder { settings }
    }

    /// Enable CPU profiling (Linux only).
    pub fn with_cpu_profiling<D>(self, config: D) -> (res: TracedRuntimeGroupBuilder<D, E, U>)
        ensures
            res@ == (Settings {
                task_tracking_enabled: self@.task_tracking_enabled,
                thread_tracking_enabled: self@.thread_tracking_enabled,
                trace_path: self@.trace_path,
                cpu_profiling_config: Some(config),
                sched_event_config: self@.sched_event_config,
                s3_config: self@.s3_config,
                s3_client: self@.s3_client,
                worker_poll_interval: self@.worker_poll_interval,
                worker_metrics_sink: self@.worker_metrics_sink,
            }),
    {
        let settings = self.settings;
        TracedRuntimeGroupBuilder {
            settings: Settings {
                task_tracking_enabled: settings.task_tracking_enabled,
                thread_tracking_enabled: settings.thread_tracking_enabled,
                trace_path: settings.trace_path,
                cpu_profiling_config: Some(config),
                sched_event_config: settings.sched_event_config,
                s3_config: settings.s3_config,
                s3_client: settings.s3_client,
                worker_poll_interval: settings.worker_poll_interval,
                worker_metrics_sink: settings.worker_metrics_sink,
            },
        }
    }

    /// Enable scheduler event tracking (Linux only).
    pub fn with_sched_events<D>(self, config: D) -> (res: TracedRuntimeGroupBuilder<C, D, U>)
        ensures
            res@ == (Settings {
                task_tracking_enabled: self@.task_tracking_enabled,
                thread_tracking_enabled: self@.thread_tracking_enabled,
                trace_path: self@.trace_path,
                cpu_profiling_config: self@.cpu_profiling_config,
                sched_event_config: Some(config),
                s3_config: self@.s3_config,
                s3_client: self@.s3_client,
                worker_poll_interval: self@.worker_poll_interval,
                worker_metrics_sink: self@.worker_metrics_sink,
            }),
    {
        let settings = self.settings;
        TracedRuntimeGroupBuilder {
            settings: Settings {
                task_tracking_enabled: settings.task_tracking_enabled,
                thread_tracking_enabled: settings.thread_tracking_enabled,
                trace_path: settings.trace_path,
                cpu_profiling_config: settings.cpu_profiling_config,
                sched_event_config: Some(config),
                s3_config: settings.s3_config,
                s3_client: settings.s3_client,
                worker_poll_interval: settings.worker_poll_interval,
                worker_metrics_sink: settings.worker_metrics_sink,
            },
        }
    }

    /// Configure S3 upload for sealed trace segments.
    pub fn with_s3_uploader<D>(self, config: D) -> (res: TracedRuntimeGroupBuilder<C, E, D>)
        ensures
            res@ == (Settings {
                task_tracking_enabled: self@.task_tracking_enabled,
                thread_tracking_enabled: self@.thread_tracking_enabled,
                trace_path: self@.trace_path,
                cpu_profiling_config: self@.cpu_profiling_config,
                sched_event_config: self@.sched_event_config,
                s3_config: Some(config),
                s3_client: self@.s3_client,
                worker_poll_interval: self@.worker_poll_interval,
                worker_metrics_sink: self@.worker_metrics_sink,
            }),
    {
        let settings = self.settings;
        TracedRuntimeGroupBuilder {
            settings: Settings {
                task_tracking_enabled: settings.task_tracking_enabled,
                thread_tracking_enabled: settings.thread_tracking_enabled,
                trace_path: settings.trace_path,
                cpu_profiling_config: settings.cpu_profiling_config,
                sched_event_config: settings.sched_event_config,
                s3_config: Some(config),
                s3_client: settings.s3_client,
                worker_poll_interval: settings.worker_poll_interval,
                worker_metrics_sink: settings.worker_metrics_sink,
            },
        }
    }

    /// Provide a pre-built S3 client.
    pub fn with_s3_client(self, client: aws_sdk_s3::Client) -> (res: Self)
        ensures
            res@ == (Settings { s3_client: Some(client), ..self@ }),
    {
        let mut settings = self.settings;
        settings.s3_client = Some(client);
        TracedRuntimeGroupBuilder { settings }
    }

    /// Set the background worker poll interval.
    pub fn with_worker_poll_interval(self, interval: Duration) -> (res: Self)
        ensures
            res@ == (Settings { worker_poll_interval: Some(interval), ..self@ }),
    {
        let mut settings = self.settings;
        settings.worker_poll_interval = Some(interval);
        TracedRuntimeGroupBuilder { settings }
    }

    /// Set the metrics sink for flush and worker metrics.
    pub fn with_worker_metrics_sink(self, sink: BoxEntrySink) -> (res: Self)
        ensures
            res@ == (Settings { worker_metrics_sink: Some(sink), ..self@ }),
    {
        let mut settings = self.settings;
        settings.worker_metrics_sink = Some(sink);
        TracedRuntimeGroupBuilder { settings }
    }

    /// Build the group with the given trace writer.
    ///
    /// After building, call [`TracedRuntimeGroup::register_named`] for each
    /// runtime, then [`TracedRuntimeGroup::start`] to begin recording.
    pub fn build<W>(self, writer: W) -> (res: Result<TracedRuntimeGroup<W, C, E, U>, std::io::Error>)
        ensures
            res matches Ok(group) && group.wf() && group@ == (GroupModel {
                runtimes: Seq::empty(),
                next_worker_id: 0,
                recording: false,
                settings: self@,
                writer,
            }),
    {
        Ok(
            TracedRuntimeGroup {
                runtimes: RuntimeSet::new(),
                next_worker_id: 0,
                recording: false,
                settings: self.settings,
                writer,
            },
        )
    }
}

impl TracedRuntimeGroup<(), (), (), ()> {
    /// Create a new builder.
    pub fn builder() -> (res: TracedRuntimeGroupBuilder<(), (), ()>)
        ensures
            res@ == (Settings::<(), (), ()> {
                task_tracking_enabled: false,
                thread_tracking_enabled: false,
                trace_path: None,
                cpu_profiling_config: None,
                sched_event_config: None,
                s3_config: None,
                s3_client: None,
                worker_poll_interval: None,
                worker_metrics_sink: None,
            }),
    {
        TracedRuntimeGroupBuilder {
            settings: Settings {
                task_tracking_enabled: false,
                thread_tracking_enabled: false,
                trace_path: None,
                cpu_profiling_config: None,
                sched_event_config: None,
                s3_config: None,
                s3_client: None,
                worker_poll_interval: None,
                worker_metrics_sink: None,
            },
        }
    }
}

impl<W, C, E, U> View for TracedRuntimeGroup<W, C, E, U> {
    type V = GroupModel<W, C, E, U>;

    closed spec fn view(&self) -> GroupModel<W, C, E, U> {
        GroupModel {
            runtimes: self.runtimes@,
            next_worker_id: self.next_worker_id as nat,
            recording: self.recording,
            settings: self.settings,
            writer: self.writer,
        }
    }
}

impl<W, C, E, U> GroupModel<W, C, E, U> {
    /// The ranges of flat worker IDs follow each other without gaps, and the
    /// next range starts where the last one ends. Recording is off until the
    /// group starts.
    pub open spec fn wf(self) -> bool {
        &&& laid_out(self.runtimes)
        &&& self.next_worker_id == workers_end(self.runtimes)
        &&& self.next_worker_id <= MAX_WORKERS
        &&& !self.recording
    }

    /// The callbacks of a runtime whose workers start at `worker_base`.
    pub open spec fn plan_at(self, worker_base: nat, current_thread_hint: bool) -> CallbackPlan {
        CallbackPlan {
            worker_base: worker_base as u8,
            current_thread_hint,
            task_tracking: self.settings.task_tracking_enabled,
            thread_tracking: self.settings.tracks_threads(),
        }
    }

    /// The callbacks of the registered runtime `i`.
    pub open spec fn plan_of(self, i: int) -> CallbackPlan {
        self.plan_at(self.runtimes[i].worker_base, self.runtimes[i].constant_worker)
    }

    /// Whether `workers` more workers fit into the range of flat worker IDs.
    pub open spec fn has_room_for(self, workers: nat) -> bool {
        self.next_worker_id + workers <= MAX_WORKERS
    }

    /// The group with one more runtime, which takes the next `workers` flat
    /// worker IDs.
    pub open spec fn with_runtime(
        self,
        name: Seq<char>,
        workers: nat,
        constant_worker: bool,
        metrics: RuntimeMetrics,
    ) -> Self {
        GroupModel {
            runtimes: self.runtimes.push(
                RuntimeModel {
                    runtime_index: self.runtimes.len(),
                    name,
                    worker_base: self.next_worker_id,
                    worker_count: workers,
                    flavor: RuntimeFlavor::detected(workers),
                    constant_worker,
                    metrics,
                },
            ),
            next_worker_id: self.next_worker_id + workers,
            ..self
        }
    }

    /// The group with one more runtime of one worker for each of `metrics`,
    /// named as the batch `name`.
    pub open spec fn with_batch(self, name: Seq<char>, metrics: Seq<RuntimeMetrics>) -> Self
        decreases metrics.len(),
    {
        if metrics.len() == 0 {
            self
        } else {
            let shorter = metrics.drop_last();
            self.with_batch(name, shorter).with_runtime(
                batch_name(name, shorter.len()),
                1,
                true,
                metrics.last(),
            )
        }
    }

    /// What registering a runtime under a name gives, and how it leaves the
    /// group, if building the runtime gave `built`. The worker is constant if the
    /// runtime is of Tokio's `current_thread` flavor.
    pub open spec fn named_outcome(
        self,
        name: Seq<char>,
        built: Result<Runtime, std::io::Error>,
    ) -> (Result<Runtime, RegisterError>, Self) {
        match built {
            Err(error) => (Err(RegisterError::Build(error)), self),
            Ok(runtime) => {
                let metrics = runtime_metrics_of(runtime);
                let workers = worker_count_of(metrics);
                if self.has_room_for(workers as nat) {
                    (
                        Ok(runtime),
                        self.with_runtime(
                            name,
                            workers as nat,
                            runs_on_current_thread(runtime),
                            metrics,
                        ),
                    )
                } else {
                    (Err(RegisterError::TooManyWorkers { workers }), self)
                }
            },
        }
    }

    /// What registering a `current_thread` runtime gives, and how it leaves the
    /// group, if building the runtime gave `built`. The worker is constant.
    pub open spec fn current_thread_outcome(
        self,
        name: Seq<char>,
        built: Result<Runtime, std::io::Error>,
    ) -> (Result<Runtime, RegisterError>, Self) {
        match built {
            Err(error) => (Err(RegisterError::Build(error)), self),
            Ok(runtime) => {
                let metrics = runtime_metrics_of(runtime);
                let workers = worker_count_of(metrics);
                if workers != 1 {
                    (Err(RegisterError::NotCurrentThread { workers }), self)
                } else if !self.has_room_for(1) {
                    (Err(RegisterError::TooManyWorkers { workers }), self)
                } else {
                    (Ok(runtime), self.with_runtime(name, 1, true, metrics))
                }
            },
        }
    }
}

impl<W, C, E, U> TracedRuntimeGroup<W, C, E, U> {
    /// Whether the group's worker ranges are laid out as they should be.
    pub open spec fn wf(self) -> bool {
        self@.wf()
    }

    /// The first flat worker ID of the next runtime to be registered.
    pub fn next_worker_id(&self) -> (res: u8)
        ensures
            res == self@.next_worker_id,
    {
        self.next_worker_id
    }

    /// The number of registered runtimes.
    pub fn runtime_count(&self) -> (res: usize)
        ensures
            res == self@.runtimes.len(),
    {
        self.runtimes.len()
    }

    /// Whether events are recorded: not before the group starts.
    pub fn is_recording(&self) -> (res: bool)
        ensures
            res == self@.recording,
    {
        self.recording
    }

    /// The callbacks of a runtime whose workers start at `worker_base`.
    ///
    /// When `current_thread_hint` is true, callbacks take the worker ID to be
    /// `worker_base` and skip the lookup of the worker and its queue.
    pub fn callback_plan(&self, worker_base: u8, current_thread_hint: bool) -> (res: CallbackPlan)
        ensures
            res == self@.plan_at(worker_base as nat, current_thread_hint),
    {
        CallbackPlan {
            worker_base,
            current_thread_hint,
            task_tracking: self.settings.task_tracking_enabled,
            thread_tracking: self.settings.thread_tracking_enabled
                || self.settings.cpu_profiling_config.is_some()
                || self.settings.sched_event_config.is_some(),
        }
    }

    /// The callbacks to install on the builder of a runtime that
    /// [`Self::register_named`] is to register next. Its flavor is not known yet,
    /// so they look up which worker they run on until the runtime is registered;
    /// from then on those of [`Self::runtime_plan`] hold.
    pub fn named_plan(&self) -> (res: CallbackPlan)
        ensures
            res == self@.plan_at(self@.next_worker_id, false),
    {
        self.callback_plan(self.next_worker_id, false)
    }

    /// The callbacks to install on the builder of a runtime that
    /// [`Self::register_current_thread`] is to register next. They know their
    /// worker.
    pub fn current_thread_plan(&self) -> (res: CallbackPlan)
        ensures
            res == self@.plan_at(self@.next_worker_id, true),
    {
        self.callback_plan(self.next_worker_id, true)
    }

    /// The callbacks of the registered runtime `i`.
    pub fn runtime_plan(&self, i: usize) -> (res: Option<CallbackPlan>)
        ensures
            res == (if i < self@.runtimes.len() {
                Some(self@.plan_of(i as int))
            } else {
                None
            }),
    {
        match self.runtimes.get(i) {
            Some(info) => Some(self.callback_plan(info.worker_base(), info.constant_worker())),
            None => None,
        }
    }

    /// Add a runtime of `worker_count` workers, which takes the next flat
    /// worker IDs.
    pub fn add_runtime(
        &mut self,
        name: &str,
        worker_count: usize,
        constant_worker: bool,
        metrics: RuntimeMetrics,
    )
        requires
            old(self).wf(),
            worker_count >= 1,
            constant_worker ==> worker_count == 1,
            old(self)@.has_room_for(worker_count as nat),
        ensures
            final(self).wf(),
            final(self)@ == old(self)@.with_runtime(
                name@,
                worker_count as nat,
                constant_worker,
                metrics,
            ),
            final(self)@.next_worker_id == old(self)@.next_worker_id + worker_count,
            final(self)@.runtimes.len() == old(self)@.runtimes.len() + 1,
            final(self)@.runtimes.last().worker_base == old(self)@.next_worker_id,
            final(self)@.runtimes.last().worker_count == worker_count,
    {
        proof {
            lemma_no_more_runtimes_than_workers(self@.runtimes);
        }
        let runtime_index: u8 = self.runtimes.len() as u8;
        let worker_base: u8 = self.next_worker_id;
        let info = RuntimeInfo::new(
            runtime_index,
            name,
            worker_base,
            worker_count as u8,
            constant_worker,
            metrics,
        );
        proof {
            lemma_layout_extends(self@.runtimes, info@);
        }
        self.runtimes.push(info);
        self.next_worker_id = worker_base + worker_count as u8;
    }

    /// Register a named runtime, given what building it came to, and return it.
    /// The group retains metadata for the flush thread and `RuntimeDef`
    /// emission.
    ///
    /// The builder carries the callbacks of [`Self::named_plan`]. For a
    /// `current_thread` builder they use a constant worker ID once the runtime is
    /// registered. The flavor written to the trace is detected from the worker
    /// count. A runtime whose workers do not fit into the range of flat worker
    /// IDs is refused.
    pub fn register_named(&mut self, name: &str, built: Result<Runtime, std::io::Error>) -> (res:
        Result<Runtime, RegisterError>)
        requires
            old(self).wf(),
        ensures
            final(self).wf(),
            (res, final(self)@) == old(self)@.named_outcome(name@, built),
    {
        match built {
            Err(error) => Err(RegisterError::Build(error)),
            Ok(runtime) => {
                let metrics = runtime_metrics(&runtime);
                let workers: usize = num_workers(&metrics);
                if workers > (MAX_WORKERS - self.next_worker_id) as usize {
                    return Err(RegisterError::TooManyWorkers { workers });
                }
                self.add_runtime(name, workers, is_current_thread(&runtime), metrics);
                Ok(runtime)
            },
        }
    }

    /// Register a `current_thread` runtime, given what building it came to, and
    /// return it.
    ///
    /// The builder carries the callbacks of [`Self::current_thread_plan`]. A
    /// runtime that turns out to have more than one worker (i.e., the builder
    /// was not created with `Builder::new_current_thread()`) is refused.
    pub fn register_current_thread(
        &mut self,
        name: &str,
        built: Result<Runtime, std::io::Error>,
    ) -> (res: Result<Runtime, RegisterError>)
        requires
            old(self).wf(),
        ensures
            final(self).wf(),
            (res, final(self)@) == old(self)@.current_thread_outcome(name@, built),
    {
        match built {
            Err(error) => Err(RegisterError::Build(error)),
            Ok(runtime) => {
                let metrics = runtime_metrics(&runtime);
                let workers: usize = num_workers(&metrics);
                if workers != 1 {
                    return Err(RegisterError::NotCurrentThread { workers });
                }
                if self.next_worker_id == MAX_WORKERS {
                    return Err(RegisterError::TooManyWorkers { workers });
                }
                self.add_runtime(name, 1, true, metrics);
                Ok(runtime)
            },
        }
    }

    /// Begin to register a batch of `current_thread` runtimes as a named group.
    ///
    /// Each runtime is named `"{name}-{i}"` where `i` is its zero-based
    /// index within the batch. Its builder carries the callbacks of
    /// [`Self::batch_plan`], and what building it came to is handed to
    /// [`RuntimeBatch::register`].
    pub fn register_group(&self, name: &str) -> (res: RuntimeBatch)
        ensures
            res@ == BatchModel::begun(name@),
            res@.name == name@,
            res@.runtimes.len() == 0,
            res@.error is None,
    {
        RuntimeBatch::new(name)
    }

    /// The callbacks to install on the builder of the batch's next runtime;
    /// `None` once the batch has ended, and no more runtimes are to be built.
    pub fn batch_plan(&self, batch: &RuntimeBatch) -> (res: Option<CallbackPlan>)
        ensures
            res == (if batch@.error is None {
                Some(self@.plan_at(self@.next_worker_id, true))
            } else {
                None
            }),
    {
        if batch.has_ended() {
            None
        } else {
            Some(self.current_thread_plan())
        }
    }

    /// The `RuntimeDef` events of all registered runtimes, in order of
    /// registration, with one timestamp.
    pub fn runtime_defs(&self, timestamp_nanos: u64) -> (res: Vec<RawEvent>)
        ensures
            res@.len() == self@.runtimes.len(),
            forall|i: int|
                0 <= i < self@.runtimes.len() ==> (#[trigger] res@[i]).runtime_def() == Some(
                    self@.runtimes[i].def(timestamp_nanos),
                ),
    {
        self.runtimes.runtime_defs(timestamp_nanos)
    }

    /// Consume the group, and give what recording starts with: the runtimes,
    /// whose definitions the trace begins with, and the services that the
    /// settings ask for.
    pub fn start(self, default_poll_interval: Duration) -> (res: StartedGroup<W, C, E, U>)
        ensures
            res.recording,
            res.writer == self@.writer,
            res.runtimes@ == self@.runtimes,
            res.services.cpu_profiling_config == self@.settings.cpu_profiling_config,
            res.services.sched_event_config == self@.settings.sched_event_config,
            res.services.flush_metrics_sink == self@.settings.worker_metrics_sink,
            res.services.worker is Some <==> self@.settings.needs_worker(),
            self@.settings.trace_path is Some && self@.settings.s3_config is Some
                ==> res.services.worker is Some,
            self@.settings.trace_path is Some && self@.settings.cpu_profiling_config is Some
                ==> res.services.worker is Some,
            self@.settings.trace_path is None ==> res.services.worker is None,
            self@.settings.s3_config is None && self@.settings.cpu_profiling_config is None
                ==> res.services.worker is None,
            res.services.worker matches Some(config) ==> config.configured_by(
                self@.settings,
                default_poll_interval,
            ),
    {
        StartedGroup {
            recording: true,
            writer: self.writer,
            runtimes: self.runtimes,
            services: plan_services(self.settings, default_poll_interval),
        }
    }
}

/// What recording starts with.
pub struct StartedGroup<W, C, E, U> {
    /// Whether events are recorded from now on.
    pub recording: bool,
    /// The trace writer.
    pub writer: W,
    /// The runtimes, for the flush thread.
    pub runtimes: RuntimeSet,
    /// The services to start.
    pub services: Services<C, E, U>,
}

impl<W, C, E, U> StartedGroup<W, C, E, U> {
    /// The `RuntimeDef` events that the trace begins with, to be written once
    /// the profilers run: those of all runtimes, in order of registration, with
    /// one timestamp.
    pub fn runtime_defs(&self, timestamp_nanos: u64) -> (res: Vec<RawEvent>)
        ensures
            res@.len() == self.runtimes@.len(),
            forall|i: int|
                0 <= i < self.runtimes@.len() ==> (#[trigger] res@[i]).runtime_def() == Some(
                    self.runtimes@[i].def(timestamp_nanos),
                ),
    {
        self.runtimes.runtime_defs(timestamp_nanos)
    }
}

/// Registering a runtime leaves the runtimes before it as they are.
pub proof fn law_registration_keeps_earlier_runtimes<W, C, E, U>(
    group: GroupModel<W, C, E, U>,
    name: Seq<char>,
    built: Result<Runtime, std::io::Error>,
)
    ensures
        group.runtimes.is_prefix_of(group.named_outcome(name, built).1.runtimes),
        group.runtimes.is_prefix_of(group.current_thread_outcome(name, built).1.runtimes),
        group.named_outcome(name, built).1.settings == group.settings,
        group.current_thread_outcome(name, built).1.settings == group.settings,
        group.named_outcome(name, built).1.writer == group.writer,
        group.current_thread_outcome(name, built).1.writer == group.writer,
        group.named_outcome(name, built).1.recording == group.recording,
        group.current_thread_outcome(name, built).1.recording == group.recording,
{
    let named = group.named_outcome(name, built).1.runtimes;
    let current = group.current_thread_outcome(name, built).1.runtimes;
    assert(group.runtimes =~= named.take(group.runtimes.len() as int));
    assert(group.runtimes =~= current.take(group.runtimes.len() as int));
}

/// A registration that fails leaves the group as it was.
pub proof fn law_failed_registration_changes_nothing<W, C, E, U>(
    group: GroupModel<W, C, E, U>,
    name: Seq<char>,
    built: Result<Runtime, std::io::Error>,
)
    ensures
        group.named_outcome(name, built).0 is Err ==> group.named_outcome(name, built).1 == group,
        group.current_thread_outcome(name, built).0 is Err ==> group.current_thread_outcome(
            name,
            built,
        ).1 == group,
{
}

/// For a runtime of Tokio's `current_thread` flavor, the two ways to register it
/// come to the same.
pub proof fn law_ways_to_register_current_thread_agree<W, C, E, U>(
    group: GroupModel<W, C, E, U>,
    name: Seq<char>,
    runtime: Runtime,
)
    requires
        runs_on_current_thread(runtime),
        worker_count_of(runtime_metrics_of(runtime)) == 1,
    ensures
        group.current_thread_outcome(name, Ok(runtime)) == group.named_outcome(name, Ok(runtime)),
{
}

/// The callbacks planned for the next runtime attribute events to the range
/// that the runtime gets when it is registered, and to no range of a runtime
/// registered before it.
pub proof fn law_planned_callbacks_match_the_registration<W, C, E, U>(
    group: GroupModel<W, C, E, U>,
    name: Seq<char>,
    workers: nat,
    constant_worker: bool,
    metrics: RuntimeMetrics,
    plan: CallbackPlan,
    resolved: Option<usize>,
    worker: u64,
)
    requires
        group.wf(),
        workers >= 1,
        group.has_room_for(workers),
        plan.worker_base == group.next_worker_id,
        resolved matches Some(id) ==> plan.worker_base <= id < plan.worker_base + workers,
        plan.worker(resolved) == WorkerId::Worker(worker),
    ensures
        group.with_runtime(name, workers, constant_worker, metrics).runtimes.last().owns(worker as nat),
        forall|earlier: int|
            0 <= earlier < group.runtimes.len() ==> !(#[trigger] group.with_runtime(
                name,
                workers,
                constant_worker,
                metrics,
            ).runtimes[earlier]).owns(worker as nat),
{
    let after = group.with_runtime(name, workers, constant_worker, metrics);
    assert forall|earlier: int| 0 <= earlier < group.runtimes.len() implies !(
    #[trigger] after.runtimes[earlier]).owns(worker as nat) by {
        assert(after.runtimes[earlier] == group.runtimes[earlier]);
        law_worker_ranges_leave_no_gap(group.runtimes, worker as nat);
    }
}

/// The callbacks of a newly registered runtime are those planned for it, with
/// the lookup left out if its worker is constant.
pub proof fn law_registration_settles_the_plan<W, C, E, U>(
    group: GroupModel<W, C, E, U>,
    name: Seq<char>,
    workers: nat,
    constant_worker: bool,
    metrics: RuntimeMetrics,
)
    requires
        group.wf(),
        workers >= 1,
        group.has_room_for(workers),
    ensures
        ({
            let after = group.with_runtime(name, workers, constant_worker, metrics);
            after.plan_of(group.runtimes.len() as int) == group.plan_at(
                group.next_worker_id,
                false,
            ).settled(constant_worker)
        }),
{
}

/// A runtime of Tokio's `current_thread` flavor registered under a name has a
/// constant worker ID, as has every runtime registered as a `current_thread`
/// runtime: on whatever thread its callbacks run and whatever a lookup would
/// give there, events carry the first ID of the runtime's range. It is the next
/// ID of the group before the registration. Other runtimes registered under a
/// name keep the callbacks that look up their worker.
pub proof fn law_current_thread_runtimes_have_a_constant_id<W, C, E, U>(
    group: GroupModel<W, C, E, U>,
    name: Seq<char>,
    runtime: Runtime,
    resolved: Option<usize>,
)
    requires
        group.wf(),
        group.has_room_for(worker_count_of(runtime_metrics_of(runtime)) as nat),
    ensures
        ({
            let n = group.runtimes.len() as int;
            let id = WorkerId::Worker(group.next_worker_id as u64);
            let named = group.named_outcome(name, Ok(runtime));
            let current = group.current_thread_outcome(name, Ok(runtime));
            &&& named.0 == Ok::<Runtime, RegisterError>(runtime)
            &&& named.1.runtimes[n].worker_base == group.next_worker_id
            &&& named.1.plan_of(n) == group.plan_at(
                group.next_worker_id,
                runs_on_current_thread(runtime),
            )
            &&& runs_on_current_thread(runtime) ==> named.1.plan_of(n).worker(resolved) == id
            &&& worker_count_of(runtime_metrics_of(runtime)) == 1 ==> {
                &&& current.0 == Ok::<Runtime, RegisterError>(runtime)
                &&& current.1.runtimes[n].worker_base == group.next_worker_id
                &&& current.1.plan_of(n) == group.plan_at(group.next_worker_id, true)
                &&& current.1.plan_of(n).worker(resolved) == id
            }
        }),
{
}

/// Events of two registered runtimes never name the same worker, where a lookup
/// gives no worker outside the range of the runtime it is made on.
pub proof fn law_events_of_registered_runtimes_are_told_apart<W, C, E, U>(
    group: GroupModel<W, C, E, U>,
    i: int,
    i_resolved: Option<usize>,
    j: int,
    j_resolved: Option<usize>,
)
    requires
        group.wf(),
        0 <= i < group.runtimes.len(),
        0 <= j < group.runtimes.len(),
        i != j,
        i_resolved matches Some(id) ==> group.runtimes[i].owns(id as nat),
        j_resolved matches Some(id) ==> group.runtimes[j].owns(id as nat),
        group.plan_of(i).worker(i_resolved) is Worker,
        group.plan_of(j).worker(j_resolved) is Worker,
    ensures
        group.plan_of(i).worker(i_resolved) != group.plan_of(j).worker(j_resolved),
{
    let i_worker = group.plan_of(i).worker(i_resolved)->Worker_0;
    let j_worker = group.plan_of(j).worker(j_resolved)->Worker_0;
    lemma_ranges_fit(group.runtimes, i);
    lemma_ranges_fit(group.runtimes, j);
    assert(group.runtimes[i].owns(i_worker as nat));
    assert(group.runtimes[j].owns(j_worker as nat));
    if i_worker == j_worker {
        law_worker_ranges_are_disjoint(group.runtimes, i, j, i_worker as nat);
    }
}

/// Every range holds a worker, and ends no later than the last one.
proof fn lemma_ranges_fit(runtimes: Seq<RuntimeModel>, i: int)
    requires
        laid_out(runtimes),
        0 <= i < runtimes.len(),
    ensures
        runtimes[i].worker_count >= 1,
        runtimes[i].worker_end() <= workers_end(runtimes),
{
    let last = runtimes.len() - 1;
    assert(placed(runtimes, i));
    if i < last {
        assert(placed(runtimes, last));
        law_worker_ranges_ascend(runtimes, i, last);
    }
}

/// One registration: whether it is for a `current_thread` runtime, the name, and
/// what building the runtime came to.
pub struct RegistrationModel {
    pub current_thread: bool,
    pub name: Seq<char>,
    pub built: Result<Runtime, std::io::Error>,
}

impl<W, C, E, U> GroupModel<W, C, E, U> {
    /// The group after a number of registrations, successful or not.
    pub open spec fn after_all(self, registrations: Seq<RegistrationModel>) -> Self
        decreases registrations.len(),
    {
        if registrations.len() == 0 {
            self
        } else {
            let before = self.after_all(registrations.drop_last());
            let last = registrations.last();
            if last.current_thread {
                before.current_thread_outcome(last.name, last.built).1
            } else {
                before.named_outcome(last.name, last.built).1
            }
        }
    }
}

/// However many runtimes are registered, until the group starts recording is
/// off, the writer is as it was handed over, and the settings and the runtimes
/// registered before are as they were.
pub proof fn law_nothing_is_recorded_before_start<W, C, E, U>(
    group: GroupModel<W, C, E, U>,
    registrations: Seq<RegistrationModel>,
)
    requires
        group.wf(),
    ensures
        !group.after_all(registrations).recording,
        group.after_all(registrations).writer == group.writer,
        group.after_all(registrations).settings == group.settings,
        group.runtimes.is_prefix_of(group.after_all(registrations).runtimes),
    decreases registrations.len(),
{
    if registrations.len() > 0 {
        law_nothing_is_recorded_before_start(group, registrations.drop_last());
        let before = group.after_all(registrations.drop_last());
        let last = registrations.last();
        law_registration_keeps_earlier_runtimes(before, last.name, last.built);
    } else {
        assert(group.runtimes.is_prefix_of(group.runtimes));
    }
}

/// Later registrations change neither the callbacks of a registered runtime nor
/// its definition.
pub proof fn law_later_registrations_keep_the_callbacks<W, C, E, U>(
    group: GroupModel<W, C, E, U>,
    registrations: Seq<RegistrationModel>,
    i: int,
)
    requires
        group.wf(),
        0 <= i < group.runtimes.len(),
    ensures
        group.after_all(registrations).plan_of(i) == group.plan_of(i),
        group.after_all(registrations).runtimes[i] == group.runtimes[i],
{
    law_nothing_is_recorded_before_start(group, registrations);
    let after = group.after_all(registrations);
    assert(after.runtimes.take(group.runtimes.len() as int)[i] == after.runtimes[i]);
}

/// A batch takes consecutive flat worker IDs and consecutive indices, one for
/// each runtime, and leaves the runtimes before it as they are.
pub proof fn law_batch_takes_consecutive_workers<W, C, E, U>(
    group: GroupModel<W, C, E, U>,
    name: Seq<char>,
    metrics: Seq<RuntimeMetrics>,
)
    ensures
        ({
            let after = group.with_batch(name, metrics);
            let n = group.runtimes.len();
            &&& after.next_worker_id == group.next_worker_id + metrics.len()
            &&& after.settings == group.settings
            &&& after.writer == group.writer
            &&& after.recording == group.recording
            &&& after.runtimes.len() == n + metrics.len()
            &&& forall|i: int| 0 <= i < n ==> after.runtimes[i] == #[trigger] group.runtimes[i]
            &&& forall|i: int|
                0 <= i < metrics.len() ==> #[trigger] after.runtimes[n + i] == (RuntimeModel {
                    runtime_index: (n + i) as nat,
                    name: batch_name(name, i as nat),
                    worker_base: (group.next_worker_id + i) as nat,
                    worker_count: 1,
                    flavor: RuntimeFlavor::CurrentThread,
                    constant_worker: true,
                    metrics: metrics[i],
                })
        }),
    decreases metrics.len(),
{
    if metrics.len() > 0 {
        let shorter = metrics.drop_last();
        law_batch_takes_consecutive_workers(group, name, shorter);
        let before = group.with_batch(name, shorter);
        let after = group.with_batch(name, metrics);
        let n = group.runtimes.len();
        assert forall|i: int| 0 <= i < n implies after.runtimes[i]
            == #[trigger] group.runtimes[i] by {
            assert(before.runtimes[i] == group.runtimes[i]);
        }
        assert forall|i: int| 0 <= i < metrics.len() implies #[trigger] after.runtimes[n + i] == (
        RuntimeModel {
            runtime_index: (n + i) as nat,
            name: batch_name(name, i as nat),
            worker_base: (group.next_worker_id + i) as nat,
            worker_count: 1,
            flavor: RuntimeFlavor::CurrentThread,
            constant_worker: true,
            metrics: metrics[i],
        }) by {
            if i < shorter.len() {
                assert(after.runtimes[n + i] == before.runtimes[n + i]);
            }
        }
    }
}

/// A runtime that is added takes as many flat worker IDs as it has workers, from
/// the next one on, and the position after the last runtime. It has the flavor
/// `current_thread` if and only if it has one worker. Nothing else of the group
/// changes.
pub proof fn law_a_runtime_takes_as_many_ids_as_workers<W, C, E, U>(
    group: GroupModel<W, C, E, U>,
    name: Seq<char>,
    workers: nat,
    constant_worker: bool,
    metrics: RuntimeMetrics,
)
    ensures
        ({
            let after = group.with_runtime(name, workers, constant_worker, metrics);
            let added = after.runtimes.last();
            &&& after.next_worker_id == group.next_worker_id + workers
            &&& after.runtimes.len() == group.runtimes.len() + 1
            &&& after.runtimes.drop_last() == group.runtimes
            &&& after.settings == group.settings
            &&& after.writer == group.writer
            &&& after.recording == group.recording
            &&& added.runtime_index == group.runtimes.len()
            &&& added.name == name
            &&& added.worker_base == group.next_worker_id
            &&& added.worker_count == workers
            &&& added.flavor == RuntimeFlavor::CurrentThread <==> workers == 1
            &&& added.constant_worker == constant_worker
            &&& added.metrics == metrics
        }),
{
    let after = group.with_runtime(name, workers, constant_worker, metrics);
    assert(after.runtimes.drop_last() =~= group.runtimes);
}

/// A runtime registered under a name takes as many flat worker IDs as its
/// metrics report workers. It is registered if and only if they end at 255 or
/// below, and handed back; otherwise it is refused with the number of workers it
/// has. Its worker is constant if and only if Tokio runs it on the current
/// thread.
pub proof fn law_named_runtimes_take_what_their_metrics_report<W, C, E, U>(
    group: GroupModel<W, C, E, U>,
    name: Seq<char>,
    runtime: Runtime,
)
    ensures
        ({
            let n = worker_count_of(runtime_metrics_of(runtime));
            let res = group.named_outcome(name, Ok(runtime)).0;
            let after = group.named_outcome(name, Ok(runtime)).1;
            let last = after.runtimes.last();
            &&& group.next_worker_id + n <= 255 ==> {
                &&& res == Ok::<Runtime, RegisterError>(runtime)
                &&& after.next_worker_id == group.next_worker_id + n
                &&& after.runtimes.len() == group.runtimes.len() + 1
                &&& after.runtimes.drop_last() == group.runtimes
                &&& last.runtime_index == group.runtimes.len()
                &&& last.name == name
                &&& last.worker_base == group.next_worker_id
                &&& last.worker_count == n
                &&& last.flavor == RuntimeFlavor::CurrentThread <==> n == 1
                &&& last.constant_worker <==> runs_on_current_thread(runtime)
                &&& last.metrics == runtime_metrics_of(runtime)
            }
            &&& group.next_worker_id + n > 255 ==> {
                &&& res == Err::<Runtime, RegisterError>(
                    RegisterError::TooManyWorkers { workers: n },
                )
                &&& after == group
            }
        }),
{
    let n = worker_count_of(runtime_metrics_of(runtime));
    law_a_runtime_takes_as_many_ids_as_workers(
        group,
        name,
        n as nat,
        runs_on_current_thread(runtime),
        runtime_metrics_of(runtime),
    );
}

/// A runtime registered as a `current_thread` runtime takes one flat worker ID,
/// and its worker is constant. It is registered if and only if it has one worker
/// and an ID is left. One with another number of workers is refused for that,
/// whether or not an ID is left.
pub proof fn law_current_thread_runtimes_take_one_id<W, C, E, U>(
    group: GroupModel<W, C, E, U>,
    name: Seq<char>,
    runtime: Runtime,
)
    ensures
        ({
            let n = worker_count_of(runtime_metrics_of(runtime));
            let res = group.current_thread_outcome(name, Ok(runtime)).0;
            let after = group.current_thread_outcome(name, Ok(runtime)).1;
            let last = after.runtimes.last();
            &&& n == 1 && group.next_worker_id < 255 ==> {
                &&& res == Ok::<Runtime, RegisterError>(runtime)
                &&& after.next_worker_id == group.next_worker_id + 1
                &&& after.runtimes.len() == group.runtimes.len() + 1
                &&& after.runtimes.drop_last() == group.runtimes
                &&& last.runtime_index == group.runtimes.len()
                &&& last.name == name
                &&& last.worker_base == group.next_worker_id
                &&& last.worker_count == 1
                &&& last.flavor == RuntimeFlavor::CurrentThread
                &&& last.constant_worker
                &&& last.metrics == runtime_metrics_of(runtime)
            }
            &&& n == 1 && group.next_worker_id >= 255 ==> {
                &&& res == Err::<Runtime, RegisterError>(
                    RegisterError::TooManyWorkers { workers: 1 },
                )
                &&& after == group
            }
            &&& n != 1 ==> {
                &&& res == Err::<Runtime, RegisterError>(
                    RegisterError::NotCurrentThread { workers: n },
                )
                &&& after == group
            }
        }),
{
    law_a_runtime_takes_as_many_ids_as_workers(
        group,
        name,
        1,
        true,
        runtime_metrics_of(runtime),
    );
}

/// If a runtime could not be built, either way to register it hands on the very
/// error, and leaves the group as it was.
pub proof fn law_build_errors_are_handed_on<W, C, E, U>(
    group: GroupModel<W, C, E, U>,
    name: Seq<char>,
    error: std::io::Error,
)
    ensures
        group.named_outcome(name, Err(error)).0 == Err::<Runtime, RegisterError>(
            RegisterError::Build(error),
        ),
        group.named_outcome(name, Err(error)).1 == group,
        group.current_thread_outcome(name, Err(error)).0 == Err::<Runtime, RegisterError>(
            RegisterError::Build(error),
        ),
        group.current_thread_outcome(name, Err(error)).1 == group,
{
}

/// Workers fit into a group as long as the worker IDs in use and theirs are no
/// more than 255.
pub proof fn law_a_group_holds_255_workers<W, C, E, U>(
    group: GroupModel<W, C, E, U>,
    workers: nat,
)
    ensures
        group.has_room_for(workers) <==> group.next_worker_id + workers <= 255,
{
}

/// The callbacks of a runtime start at its first worker ID. They track tasks if
/// and only if the group's settings ask for it, and follow threads if and only if
/// the settings ask for it or configure a profiler.
pub proof fn law_callbacks_follow_the_settings<W, C, E, U>(
    group: GroupModel<W, C, E, U>,
    worker_base: nat,
    current_thread_hint: bool,
)
    requires
        worker_base <= 255,
    ensures
        ({
            let plan = group.plan_at(worker_base, current_thread_hint);
            &&& plan.worker_base == worker_base
            &&& plan.current_thread_hint == current_thread_hint
            &&& plan.task_tracking <==> group.settings.task_tracking_enabled
            &&& plan.thread_tracking <==> group.settings.thread_tracking_enabled
                || group.settings.cpu_profiling_config is Some
                || group.settings.sched_event_config is Some
        }),
{
}

/// The callbacks of a registered runtime start at the first worker ID of its
/// range, and make a lookup unless its worker is constant. Of the group they
/// depend on the settings alone.
pub proof fn law_callbacks_of_a_registered_runtime<W, C, E, U>(
    group: GroupModel<W, C, E, U>,
    i: int,
)
    requires
        group.wf(),
        0 <= i < group.runtimes.len(),
    ensures
        group.plan_of(i).worker_base == group.runtimes[i].worker_base,
        group.plan_of(i).current_thread_hint == group.runtimes[i].constant_worker,
        group.plan_of(i).task_tracking == group.settings.task_tracking_enabled,
        group.plan_of(i).thread_tracking <==> group.settings.thread_tracking_enabled
            || group.settings.cpu_profiling_config is Some
            || group.settings.sched_event_config is Some,
{
    lemma_ranges_fit(group.runtimes, i);
}

/// What holds of a group until it starts: it records nothing, its runtimes carry
/// their positions, and their ranges of worker IDs follow each other from 0 up to
/// the next ID, which is 255 at most. Conversely, every such group is in order.
pub proof fn law_a_group_in_order<W, C, E, U>(group: GroupModel<W, C, E, U>)
    ensures
        group.wf() <==> {
            &&& !group.recording
            &&& group.next_worker_id <= 255
            &&& group.runtimes.len() == 0 ==> group.next_worker_id == 0
            &&& group.runtimes.len() > 0 ==> group.next_worker_id
                == group.runtimes.last().worker_base + group.runtimes.last().worker_count
            &&& laid_out(group.runtimes)
        },
{
}

/// Starting a group turns recording on, and hands on its writer and its runtimes
/// as they are. With a trace path, an upload alone or CPU profiling alone makes
/// the background worker start, whatever the other settings are.
pub proof fn law_starting_hands_everything_on<W, C, E, U>(
    group: TracedRuntimeGroup<W, C, E, U>,
    default_poll_interval: Duration,
    started: StartedGroup<W, C, E, U>,
)
    requires
        call_ensures(
            TracedRuntimeGroup::<W, C, E, U>::start,
            (group, default_poll_interval),
            started,
        ),
    ensures
        started.recording,
        started.writer == group@.writer,
        started.runtimes@ == group@.runtimes,
        group@.settings.trace_path is Some && group@.settings.s3_config is Some
            ==> started.services.worker is Some,
        group@.settings.trace_path is Some && group@.settings.cpu_profiling_config is Some
            ==> started.services.worker is Some,
        started.services.worker is Some ==> group@.settings.trace_path is Some && (
        group@.settings.s3_config is Some || group@.settings.cpu_profiling_config is Some),
        started.services.cpu_profiling_config == group@.settings.cpu_profiling_config,
        started.services.sched_event_config == group@.settings.sched_event_config,
        started.services.flush_metrics_sink == group@.settings.worker_metrics_sink,
{
}

/// The callbacks planned before a registration and those of the registered
/// runtime start at the same worker ID, which is the group's next one, and track
/// the same. Those planned for a `current_thread` runtime make no lookup, those
/// planned for a runtime of unknown flavor do.
pub proof fn law_plans_start_at_the_next_id<W, C, E, U>(
    group: TracedRuntimeGroup<W, C, E, U>,
    next: u8,
    named: CallbackPlan,
    current_thread: CallbackPlan,
)
    requires
        call_ensures(TracedRuntimeGroup::<W, C, E, U>::next_worker_id, (&group,), next),
        call_ensures(TracedRuntimeGroup::<W, C, E, U>::named_plan, (&group,), named),
        call_ensures(
            TracedRuntimeGroup::<W, C, E, U>::current_thread_plan,
            (&group,),
            current_thread,
        ),
    ensures
        named.worker_base == next,
        current_thread.worker_base == next,
        !named.current_thread_hint,
        current_thread.current_thread_hint,
        named.task_tracking == group@.settings.task_tracking_enabled,
        current_thread.task_tracking == group@.settings.task_tracking_enabled,
        named.thread_tracking == current_thread.thread_tracking,
        named.thread_tracking <==> group@.settings.thread_tracking_enabled
            || group@.settings.cpu_profiling_config is Some
            || group@.settings.sched_event_config is Some,
{
}

/// Every registered runtime has callbacks, and they start at the first worker ID
/// of its range and make a lookup unless its worker is constant. Past the last
/// runtime there are none.
pub proof fn law_registered_runtimes_have_callbacks<W, C, E, U>(
    group: TracedRuntimeGroup<W, C, E, U>,
    i: usize,
    plan: Option<CallbackPlan>,
)
    requires
        group.wf(),
        call_ensures(TracedRuntimeGroup::<W, C, E, U>::runtime_plan, (&group, i), plan),
    ensures
        plan is Some <==> i < group@.runtimes.len(),
        plan matches Some(plan) ==> {
            &&& plan.worker_base == group@.runtimes[i as int].worker_base
            &&& plan.current_thread_hint == group@.runtimes[i as int].constant_worker
            &&& plan.task_tracking == group@.settings.task_tracking_enabled
        },
{
    if i < group@.runtimes.len() {
        law_callbacks_of_a_registered_runtime(group@, i as int);
    }
}

/// The callbacks for the next member of a batch know their worker, which is the
/// group's next one. Once the batch has ended there are none.
pub proof fn law_batch_members_start_at_the_next_id<W, C, E, U>(
    group: TracedRuntimeGroup<W, C, E, U>,
    batch: RuntimeBatch,
    plan: Option<CallbackPlan>,
)
    requires
        group.wf(),
        call_ensures(TracedRuntimeGroup::<W, C, E, U>::batch_plan, (&group, &batch), plan),
    ensures
        plan is Some <==> batch@.error is None,
        plan matches Some(plan) ==> {
            &&& plan.worker_base == group@.next_worker_id
            &&& plan.current_thread_hint
            &&& plan.task_tracking == group@.settings.task_tracking_enabled
        },
{
}

} // verus!
