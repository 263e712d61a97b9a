//! A resource lifecycle orchestrator: drives a fixed set of
//! externally managed resources (containers, networks, volumes)
//! through creation, startup, readiness, and teardown, subject to a
//! dependency graph and a hot-reloadable configuration.
//!
//! The library holds the decision logic: the per-resource state
//! machines, the event parsing, the dependency bookkeeping, and the
//! edge-triggered readiness notifications.  The caller owns the
//! driver connection, the channels, and the timers, performs the
//! actions this library decides on, and feeds the outcomes back.

pub mod config;
pub mod error;
pub mod forwarder;
mod idmap;
pub mod ids;
pub mod image;
pub mod launchpad;
pub mod laws;
pub mod network;
pub mod scope;
pub mod status;
pub mod strutil;
pub mod task;
pub mod volume;
