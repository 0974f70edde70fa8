//! An in-process telemetry agent: it aggregates timings of application
//! transactions and decides when and how they are shipped to a collector.
//!
//! Everything here is pure decision logic over plain values. Clocks, sockets,
//! threads and serialisation live with the embedding program, which feeds this
//! crate events and carries out the actions it answers with.
//!
//! All durations and points in time are unsigned 64-bit nanosecond counts.

pub use crate::agent::Agent;
pub use crate::config::Config;
pub use crate::transaction::Transaction;

pub mod agent;
pub mod analytics_events;
pub mod apdex;
pub mod app_run;
pub mod assoc;
pub mod clock;
pub mod collector;
pub mod config;
pub mod connect_reply;
pub mod domain_defs;
pub mod harvest;
pub mod limits;
pub mod metric_names;
pub mod metrics;
pub mod payloads;
pub mod string_map;
pub mod sync_util;
pub mod text;
pub mod transaction;
pub mod transaction_trace;
pub mod utilization;
