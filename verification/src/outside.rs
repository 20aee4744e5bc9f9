//! Types and functions of other crates that the library relies on.
//!
//! Verus sees nothing inside the types declared here, and believes the
//! contracts of the functions.
use metrique_writer::BoxEntrySink;
use tokio::runtime::{Runtime, RuntimeMetrics};
use vstd::prelude::*;

verus! {

#[verifier::external_type_specification]
#[verifier::external_body]
pub struct ExRuntime(tokio::runtime::Runtime);

#[verifier::external_type_specification]
#[verifier::external_body]
pub struct ExRuntimeMetrics(tokio::runtime::RuntimeMetrics);

#[verifier::external_type_specification]
#[verifier::external_body]
pub struct ExS3Client(aws_sdk_s3::Client);

#[verifier::external_type_specification]
#[verifier::external_body]
pub struct ExBoxEntrySink(metrique_writer::BoxEntrySink);

#[verifier::external_type_specification]
#[verifier::external_body]
pub struct ExPathBuf(std::path::PathBuf);

#[verifier::external_type_specification]
#[verifier::external_body]
pub struct ExIoError(std::io::Error);

/// The metrics handle that `Handle::metrics` gives for a runtime.
pub uninterp spec fn runtime_metrics_of(runtime: Runtime) -> RuntimeMetrics;

/// The number of workers that `RuntimeMetrics::num_workers` gives.
pub uninterp spec fn worker_count_of(metrics: RuntimeMetrics) -> usize;

/// Whether `Handle::runtime_flavor` gives `CurrentThread` for a runtime.
pub uninterp spec fn runs_on_current_thread(runtime: Runtime) -> bool;

/// Whether a call of `RuntimeMetrics::global_queue_depth` on this handle gave
/// this depth.
pub uninterp spec fn queue_depth_read(metrics: RuntimeMetrics, depth: usize) -> bool;

/// Whether a sink is one that `DevNullSink::boxed` gives: one that drops every
/// entry.
pub uninterp spec fn drops_every_entry(sink: BoxEntrySink) -> bool;

/// `tokio::runtime::Runtime::handle` and `tokio::runtime::Handle::metrics`.
///
/// Claims that the metrics handle is determined by the runtime.
#[verifier::external_body]
pub(crate) fn runtime_metrics(runtime: &Runtime) -> (res: RuntimeMetrics)
    ensures
        res == runtime_metrics_of(*runtime),
{
    runtime.handle().metrics()
}

/// `tokio::runtime::RuntimeMetrics::num_workers`.
///
/// Claims that the number is fixed for a runtime and at least 1: Tokio gives 1
/// for a `current_thread` runtime, and refuses to configure a `multi_thread`
/// runtime with 0 workers.
#[verifier::external_body]
pub(crate) fn num_workers(metrics: &RuntimeMetrics) -> (res: usize)
    ensures
        res == worker_count_of(*metrics),
        res >= 1,
{
    metrics.num_workers()
}

/// `tokio::runtime::Runtime::handle` and `tokio::runtime::Handle::runtime_flavor`.
///
/// Claims that the flavor is fixed for a runtime, and that a runtime of flavor
/// `CurrentThread` has one worker.
#[verifier::external_body]
pub(crate) fn is_current_thread(runtime: &Runtime) -> (res: bool)
    ensures
        res == runs_on_current_thread(*runtime),
        res ==> worker_count_of(runtime_metrics_of(*runtime)) == 1,
{
    runtime.handle().runtime_flavor() == tokio::runtime::RuntimeFlavor::CurrentThread
}

/// `tokio::runtime::RuntimeMetrics::global_queue_depth`.
///
/// The depth changes while the runtime works. Claims only that it was read from
/// this runtime.
#[verifier::external_body]
pub(crate) fn global_queue_depth(metrics: &RuntimeMetrics) -> (res: usize)
    ensures
        queue_depth_read(*metrics, res),
{
    metrics.global_queue_depth()
}

/// `Clone::clone` of `metrique_writer::BoxEntrySink`.
///
/// Claims that the clone is the same sink: it shares what it clones.
#[verifier::external_body]
pub(crate) fn clone_sink(sink: &BoxEntrySink) -> (res: BoxEntrySink)
    ensures
        res == *sink,
{
    sink.clone()
}

/// `metrique_writer::sink::DevNullSink::boxed`.
///
/// Claims that the sink is one that drops every entry.
#[verifier::external_body]
pub(crate) fn dev_null_sink() -> (res: BoxEntrySink)
    ensures
        drops_every_entry(res),
{
    metrique_writer::sink::DevNullSink::boxed()
}

} // verus!
