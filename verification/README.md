# traced_runtime_group

Telemetry for groups of Tokio runtimes that share one trace stream.

Every runtime of a group gets a contiguous range of flat worker IDs, so that
events from different runtimes can be told apart in the trace. The library is
written in Verus: each function states what it does, and the promises that span
functions are public proof functions named `law_*`.

- `src/group.rs`: the builder, registration of runtimes, start of recording
- `src/batch.rs`: registration of a batch, one runtime at a time
- `src/runtimes.rs`: the registered runtimes and the layout of their worker IDs
- `src/callbacks.rs`: which callbacks a runtime gets and what they record
- `src/flush.rs`: what the flush thread does, step by step
- `src/background.rs`: which services the settings ask for
- `src/event.rs`, `src/flavor.rs`, `src/names.rs`, `src/roles.rs`: events,
  flavors, names of batches, roles of threads
- `src/outside.rs`: the types and functions of other crates that are trusted
- `app/`: installs the callbacks on Tokio's builders, builds the runtimes and
  runs the threads. The
  task hooks and the depth of local queues need Tokio built with
  `--cfg tokio_unstable`.
