use aws_sdk_s3::config::retry::RetryConfig;
use aws_sdk_s3::config::timeout::TimeoutConfig;
use aws_sdk_s3::config::{BehaviorVersion, IdentityCache, Region, StalledStreamProtectionConfig};
use metrique_writer::sink::VecEntrySink;
use metrique_writer::{BoxEntry, BoxEntrySink, Entry, EntrySink, EntryWriter};
use std::path::PathBuf;
use std::time::Duration;
use traced_runtime_group::group::TracedRuntimeGroup;

const DEFAULT_POLL: Duration = Duration::from_secs(9);

struct Nothing;

impl Entry for Nothing {
    fn write<'a>(&'a self, _writer: &mut impl EntryWriter<'a>) {}
}

fn client(region: &'static str) -> aws_sdk_s3::Client {
    let config = aws_sdk_s3::Config::builder()
        .behavior_version(BehaviorVersion::v2026_01_12())
        .region(Region::new(region))
        .retry_config(RetryConfig::disabled())
        .identity_cache(IdentityCache::no_cache())
        .timeout_config(TimeoutConfig::disabled())
        .stalled_stream_protection(StalledStreamProtectionConfig::disabled())
        .build();
    aws_sdk_s3::Client::from_conf(config)
}

#[test]
fn defaults_ask_for_no_services() {
    let group = TracedRuntimeGroup::builder().build("writer").unwrap();
    assert_eq!(group.runtime_count(), 0);
    assert_eq!(group.next_worker_id(), 0);
    assert!(!group.is_recording());
    let started = group.start(DEFAULT_POLL);
    assert!(started.recording);
    assert_eq!(started.writer, "writer");
    assert!(started.runtime_defs(1).is_empty());
    assert_eq!(started.runtimes.len(), 0);
    assert!(started.services.cpu_profiling_config.is_none());
    assert!(started.services.sched_event_config.is_none());
    assert!(started.services.flush_metrics_sink.is_none());
    assert!(started.services.worker.is_none());
}

#[test]
fn the_flush_thread_gets_the_metrics_sink_without_a_worker() {
    let entries: VecEntrySink<BoxEntry> = VecEntrySink::new();
    let group = TracedRuntimeGroup::builder()
        .with_worker_metrics_sink(BoxEntrySink::new(entries.clone()))
        .build(())
        .unwrap();
    let services = group.start(DEFAULT_POLL).services;
    assert!(services.worker.is_none());
    services.flush_metrics_sink.unwrap().append(Nothing);
    assert_eq!(entries.drain().len(), 1);
}

#[test]
fn a_trace_path_alone_needs_no_worker() {
    let group = TracedRuntimeGroup::builder()
        .with_trace_path("/tmp/trace.bin")
        .with_sched_events("sched")
        .build(())
        .unwrap();
    let started = group.start(DEFAULT_POLL);
    assert!(started.services.worker.is_none());
    assert_eq!(started.services.sched_event_config, Some("sched"));
}

#[test]
fn without_a_trace_path_there_is_no_worker() {
    let group = TracedRuntimeGroup::builder()
        .with_cpu_profiling("cpu")
        .with_s3_uploader("s3")
        .build(())
        .unwrap();
    let started = group.start(DEFAULT_POLL);
    assert!(started.services.worker.is_none());
    assert_eq!(started.services.cpu_profiling_config, Some("cpu"));
}

#[test]
fn cpu_profiling_needs_a_symbolizing_worker() {
    let group = TracedRuntimeGroup::builder()
        .with_trace_path("/tmp/trace.bin")
        .with_cpu_profiling("cpu")
        .build(())
        .unwrap();
    let worker = group.start(DEFAULT_POLL).services.worker.unwrap();
    assert_eq!(worker.trace_path, PathBuf::from("/tmp/trace.bin"));
    assert!(worker.symbolize);
    assert_eq!(worker.poll_interval, DEFAULT_POLL);
    assert!(worker.s3.is_none());
    assert!(worker.client.is_none());
    worker.metrics_sink.append(Nothing);
}

#[test]
fn an_upload_needs_a_worker() {
    let entries: VecEntrySink<BoxEntry> = VecEntrySink::new();
    let group = TracedRuntimeGroup::builder()
        .with_trace_path(String::from("first"))
        .with_trace_path(PathBuf::from("second"))
        .with_s3_uploader("bucket")
        .with_s3_client(client("eu-west-1"))
        .with_worker_poll_interval(Duration::from_millis(250))
        .with_worker_metrics_sink(BoxEntrySink::new(entries.clone()))
        .build(())
        .unwrap();
    let services = group.start(DEFAULT_POLL).services;
    let worker = services.worker.unwrap();
    assert_eq!(worker.trace_path, PathBuf::from("second"));
    assert!(!worker.symbolize);
    assert_eq!(worker.poll_interval, Duration::from_millis(250));
    assert_eq!(worker.s3, Some("bucket"));
    let region = worker.client.unwrap().config().region().cloned();
    assert_eq!(region, Some(Region::new("eu-west-1")));
    worker.metrics_sink.append(Nothing);
    services.flush_metrics_sink.unwrap().append(Nothing);
    assert_eq!(entries.drain().len(), 2);
}
