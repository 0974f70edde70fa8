//! The `transaction_sample_data` request.

use vstd::prelude::*;
use crate::domain_defs::AgentRunId;
use crate::payloads::AgentAttrs;
use crate::payloads::UserAttrs;

verus! {

/// The traces of one harvest period.
pub struct CollectorPayload {
    pub agent_run_id: AgentRunId,
    pub traces: Vec<TransactionTrace>,
}

impl CollectorPayload {
    /// Whether there is no trace to send.
    pub fn is_empty(&self) -> (empty: bool)
        ensures
            empty == (self.traces@.len() == 0),
    {
        self.traces.len() == 0
    }
}

/// What one slow transaction spent its time on.
pub struct TransactionTrace {
    /// When it began, in microseconds since the Unix epoch.
    pub start: i64,
    /// How long it took, in nanoseconds.
    pub duration: u64,
    /// The metric name of the transaction.
    pub name: String,
    pub request_uri: Option<String>,
    pub trace_data: TraceData,
    pub cat_guid: String,
    pub force_persist: bool,
    pub synthetics_resource_id: String,
}

/// The tree of timed segments with what is known about the transaction.
pub struct TraceData {
    pub node: Node,
    pub properties: Properties,
}

/// One timed segment and the segments inside it.
pub struct Node {
    /// Start and stop in milliseconds after the start of the transaction.
    pub relative_start_millis: i64,
    pub relative_stop_millis: i64,
    pub name: String,
    pub attrs: NodeAttrs,
    pub children: Vec<Node>,
}

/// What is known about a segment.
#[derive(Debug, Clone, Copy, PartialEq, Eq, Structural)]
pub struct NodeAttrs {
    /// The time spent in the segment itself, in nanoseconds.
    pub exclusive_duration: Option<u64>,
}

/// What is known about the transaction of a trace.
pub struct Properties {
    pub agent_attributes: AgentAttrs,
    pub user_attributes: UserAttrs,
    pub intrinsics: Intrinsics,
}

/// What the agent itself measured.
#[derive(Debug, Clone, Copy, PartialEq, Eq, Structural)]
pub struct Intrinsics {
    /// The time spent over all threads, in nanoseconds.
    pub total_time: u64,
}

} // verus!
