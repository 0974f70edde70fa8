//! Fixed sizes and periods of the agent.

use vstd::prelude::*;

verus! {

/// Nanoseconds in a millisecond.
pub const NANOS_PER_MILLI: u64 = 1_000_000;

/// Nanoseconds in a second.
pub const NANOS_PER_SEC: u64 = 1_000_000_000;

/// Period of the metric and trace harvest, which the collector cannot change.
pub const FIXED_HARVEST_PERIOD: u64 = 60_000_000_000;

/// Period of the event harvests when the collector names none.
pub const DEFAULT_CONFIGURABLE_EVENT_HARVEST: u64 = 60_000_000_000;

/// Report period requested at connect, in milliseconds.
pub const DEFAULT_REPORT_PERIOD_MS: u32 = 60_000;

/// Number of distinct metrics a table takes before it starts dropping.
pub const MAX_METRICS: usize = 2_000;

/// How long a request may wait for the collector.
pub const COLLECTOR_TIMEOUT: u64 = 20_000_000_000;

/// Largest compressed request body the collector accepts, in bytes.
pub const MAX_PAYLOAD_SIZE: usize = 1_000_000;

/// Custom events kept per harvest.
pub const MAX_CUSTOM_EVENTS: u32 = 10_000;

/// Transaction events kept per harvest.
pub const MAX_TXN_EVENTS: u32 = 10_000;

/// Error events kept per harvest.
pub const MAX_ERROR_EVENTS: u32 = 100;

/// Transaction traces kept per harvest.
pub const MAX_REGULAR_TRACES: usize = 1;

/// Pause between two looks at the harvest timers.
pub const TICK: u64 = 1_000_000_000;

/// A transaction at least this long is worth a trace.
pub const TRACE_THRESHOLD: u64 = 500_000_000;

} // verus!
