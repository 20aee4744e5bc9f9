//! Telemetry for groups of Tokio runtimes that share one trace stream.
//!
//! A [`group::TracedRuntimeGroup`] gives every runtime a contiguous range of
//! flat worker IDs, so that events from different runtimes can be told apart.
//! Runtimes are registered once they are built, singly or as a [`batch`].
//! [`callbacks`] says what the callbacks of a runtime record, [`flush`] what the
//! flush thread does, and [`background`] which services a group asks for.
pub mod background;
pub mod batch;
pub mod callbacks;
pub mod event;
pub mod flavor;
pub mod flush;
pub mod group;
pub mod names;
pub mod outside;
pub mod roles;
pub mod runtimes;
