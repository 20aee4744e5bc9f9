//! Whether a group needs a background worker, and how it is configured.
use crate::outside::{clone_sink, dev_null_sink, drops_every_entry};
use metrique_writer::BoxEntrySink;
use std::path::PathBuf;
use std::time::Duration;
use vstd::prelude::*;

verus! {

/// Settings of a group. The configurations of CPU profiling (`C`), of
/// scheduler events (`E`) and of the S3 upload (`U`) are kept for those who
/// start these services.
pub struct Settings<C, E, U> {
    pub task_tracking_enabled: bool,
    pub thread_tracking_enabled: bool,
    pub trace_path: Option<PathBuf>,
    pub cpu_profiling_config: Option<C>,
    pub sched_event_config: Option<E>,
    pub s3_config: Option<U>,
    pub s3_client: Option<aws_sdk_s3::Client>,
    pub worker_poll_interval: Option<Duration>,
    pub worker_metrics_sink: Option<BoxEntrySink>,
}

/// Configuration of the background worker, which symbolizes sealed trace
/// segments and uploads them.
pub struct BackgroundTaskConfig<U> {
    pub trace_path: PathBuf,
    pub poll_interval: Duration,
    pub symbolize: bool,
    pub metrics_sink: BoxEntrySink,
    pub s3: Option<U>,
    pub client: Option<aws_sdk_s3::Client>,
}

impl<C, E, U> Settings<C, E, U> {
    /// Threads are followed if this is asked for, and whenever a profiler is
    /// configured, which needs it.
    pub open spec fn tracks_threads(self) -> bool {
        self.thread_tracking_enabled || self.cpu_profiling_config is Some
            || self.sched_event_config is Some
    }

    /// A background worker is needed if there is a trace path and something to
    /// do with the segments written there: symbolize samples of the CPU
    /// profiler, or upload.
    pub open spec fn needs_worker(self) -> bool {
        self.trace_path is Some && (self.cpu_profiling_config is Some || self.s3_config is Some)
    }
}

impl<U> BackgroundTaskConfig<U> {
    /// Whether this is the configuration that the settings ask for. Where they
    /// give no poll interval the default is used, and where they give no
    /// metrics sink one that drops every entry.
    pub open spec fn configured_by<C, E>(
        self,
        settings: Settings<C, E, U>,
        default_poll_interval: Duration,
    ) -> bool {
        &&& settings.trace_path == Some(self.trace_path)
        &&& self.poll_interval == (match settings.worker_poll_interval {
            Some(interval) => interval,
            None => default_poll_interval,
        })
        &&& self.symbolize == (settings.cpu_profiling_config is Some)
        &&& match settings.worker_metrics_sink {
            Some(sink) => self.metrics_sink == sink,
            None => drops_every_entry(self.metrics_sink),
        }
        &&& self.s3 == settings.s3_config
        &&& self.client == settings.s3_client
    }
}

/// The services that a group's settings ask for.
pub struct Services<C, E, U> {
    pub cpu_profiling_config: Option<C>,
    pub sched_event_config: Option<E>,
    /// Where the flush thread reports its metrics, if anywhere.
    pub flush_metrics_sink: Option<BoxEntrySink>,
    pub worker: Option<BackgroundTaskConfig<U>>,
}

/// Decide which services are to be started.
pub fn plan_services<C, E, U>(
    settings: Settings<C, E, U>,
    default_poll_interval: Duration,
) -> (res: Services<C, E, U>)
    ensures
        res.cpu_profiling_config == settings.cpu_profiling_config,
        res.sched_event_config == settings.sched_event_config,
        res.flush_metrics_sink == settings.worker_metrics_sink,
        res.worker is Some <==> settings.needs_worker(),
        settings.trace_path is Some && settings.s3_config is Some ==> res.worker is Some,
        settings.trace_path is Some && settings.cpu_profiling_config is Some ==> res.worker is Some,
        settings.trace_path is None ==> res.worker is None,
        settings.s3_config is None && settings.cpu_profiling_config is None ==> res.worker is None,
        res.worker matches Some(config) ==> config.configured_by(settings, default_poll_interval),
{
    let symbolize = settings.cpu_profiling_config.is_some();
    let upload = settings.s3_config.is_some();
    let flush_metrics_sink = match &settings.worker_metrics_sink {
        Some(sink) => Some(clone_sink(sink)),
        None => None,
    };
    let worker = match settings.trace_path {
        Some(trace_path) => {
            if symbolize || upload {
                let poll_interval = match settings.worker_poll_interval {
                    Some(interval) => interval,
                    None => default_poll_interval,
                };
                let metrics_sink = match settings.worker_metrics_sink {
                    Some(sink) => sink,
                    None => dev_null_sink(),
                };
                Some(
                    BackgroundTaskConfig {
                        trace_path,
                        poll_interval,
                        symbolize,
                        metrics_sink,
                        s3: settings.s3_config,
                        client: settings.s3_client,
                    },
                )
            } else {
                None
            }
        },
        None => None,
    };
    Services {
        cpu_profiling_config: settings.cpu_profiling_config,
        sched_event_config: settings.sched_event_config,
        flush_metrics_sink,
        worker,
    }
}

/// With a trace path, an upload alone calls for the background worker, and so
/// does CPU profiling alone, whatever else is set. Without a path, or with
/// neither of the two, there is none.
pub proof fn law_the_worker_runs_where_it_has_work<C, E, U>(settings: Settings<C, E, U>)
    ensures
        settings.trace_path is Some && settings.s3_config is Some ==> settings.needs_worker(),
        settings.trace_path is Some && settings.cpu_profiling_config is Some
            ==> settings.needs_worker(),
        settings.trace_path is None ==> !settings.needs_worker(),
        settings.s3_config is None && settings.cpu_profiling_config is None
            ==> !settings.needs_worker(),
{
}

/// Whether the background worker runs depends on nothing but whether there are a
/// trace path, an upload and CPU profiling: settings that agree in these agree in
/// that.
pub proof fn law_other_settings_leave_the_worker_alone<C, E, U>(
    a: Settings<C, E, U>,
    b: Settings<C, E, U>,
)
    requires
        a.trace_path is Some == b.trace_path is Some,
        a.s3_config is Some == b.s3_config is Some,
        a.cpu_profiling_config is Some == b.cpu_profiling_config is Some,
    ensures
        a.needs_worker() == b.needs_worker(),
{
}

/// Threads are followed if this is asked for, if CPU profiling is configured,
/// and if scheduler events are, each on its own, and in no other case.
pub proof fn law_profilers_follow_threads<C, E, U>(settings: Settings<C, E, U>)
    ensures
        settings.thread_tracking_enabled ==> settings.tracks_threads(),
        settings.cpu_profiling_config is Some ==> settings.tracks_threads(),
        settings.sched_event_config is Some ==> settings.tracks_threads(),
        !settings.thread_tracking_enabled && settings.cpu_profiling_config is None
            && settings.sched_event_config is None ==> !settings.tracks_threads(),
{
}

/// The worker's configuration repeats what was set, down to the last setting:
/// the path, the upload and the client as they are, the poll interval and the
/// sink as they are where they were set. Samples are symbolized if and only if
/// they are taken.
pub proof fn law_the_worker_is_configured_as_set<C, E, U>(
    config: BackgroundTaskConfig<U>,
    settings: Settings<C, E, U>,
    default_poll_interval: Duration,
)
    requires
        config.configured_by(settings, default_poll_interval),
    ensures
        settings.trace_path == Some(config.trace_path),
        settings.worker_poll_interval matches Some(interval) ==> config.poll_interval == interval,
        settings.worker_poll_interval is None ==> config.poll_interval == default_poll_interval,
        config.symbolize <==> settings.cpu_profiling_config is Some,
        settings.worker_metrics_sink matches Some(sink) ==> config.metrics_sink == sink,
        settings.worker_metrics_sink is None ==> drops_every_entry(config.metrics_sink),
        config.s3 == settings.s3_config,
        config.client == settings.s3_client,
{
}

/// The profilers and the flush thread get what was set for them, whether or not
/// the background worker runs. It runs where there is a trace path and an upload
/// or CPU profiling, and gets the same sink.
pub proof fn law_services_get_what_was_set<C, E, U>(
    settings: Settings<C, E, U>,
    default_poll_interval: Duration,
    services: Services<C, E, U>,
)
    requires
        call_ensures(plan_services::<C, E, U>, (settings, default_poll_interval), services),
    ensures
        services.cpu_profiling_config == settings.cpu_profiling_config,
        services.sched_event_config == settings.sched_event_config,
        services.flush_metrics_sink == settings.worker_metrics_sink,
        services.worker is Some <==> settings.trace_path is Some && (
        settings.cpu_profiling_config is Some || settings.s3_config is Some),
        services.worker matches Some(config) ==> {
            &&& settings.trace_path == Some(config.trace_path)
            &&& config.poll_interval == (match settings.worker_poll_interval {
                Some(interval) => interval,
                None => default_poll_interval,
            })
            &&& config.symbolize <==> services.cpu_profiling_config is Some
            &&& services.flush_metrics_sink matches Some(sink) ==> config.metrics_sink == sink
            &&& services.flush_metrics_sink is None ==> drops_every_entry(config.metrics_sink)
            &&& config.s3 == settings.s3_config
            &&& config.client == settings.s3_client
        },
{
}

} // verus!
