//! Event ingestion and aggregation engine for website-visit telemetry.
//!
//! The engine receives decoded visit events and maintains running
//! visitor/session counters per website and per page path, while
//! appending every event to a raw, append-only log for later analysis.
//! Transport, decoding and persistence plumbing are collaborators that
//! live outside this crate; the coordinator here defines what each
//! event does to the state.

pub mod coordinator;
pub mod event;
pub mod event_log;
pub mod laws;
pub mod model;
pub mod store;
