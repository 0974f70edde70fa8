//! The `analytic_event_data` request.

use vstd::prelude::*;
use crate::apdex::ApdexZone;
use crate::domain_defs::AgentRunId;
use crate::payloads::AgentAttrs;
use crate::payloads::UserAttrs;

verus! {

/// The events of one harvest period.
pub struct CollectorPayload {
    pub agent_run_id: AgentRunId,
    pub properties: Properties,
    pub events: Vec<AnalyticsEventWithAttrs>,
}

/// How the events of a report were sampled.
#[derive(Debug, Clone, Copy, PartialEq, Eq, Structural)]
pub struct Properties {
    /// How many events the reservoir can hold.
    pub reservoir_size: i32,
    /// How many events were offered to it.
    pub events_seen: i32,
}

/// An event with the attributes attached to it.
pub struct AnalyticsEventWithAttrs {
    pub event: AnalyticsEvent,
    pub user_attrs: UserAttrs,
    pub agent_attrs: AgentAttrs,
}

/// An event, by its type.
pub enum AnalyticsEvent {
    Transaction(TransactionEvent),
}

/// The end of one transaction.
pub struct TransactionEvent {
    /// The metric name of the transaction.
    pub name: String,
    /// When it ended, in seconds since the Unix epoch.
    pub timestamp: i64,
    /// The Apdex zone of a web transaction.
    pub apdex_perf_zone: Option<ApdexZone>,
    pub error: bool,
    /// How long it took, in nanoseconds.
    pub duration: u64,
    /// The time spent in it over all its threads, in nanoseconds.
    pub total_time: u64,
}

} // verus!
