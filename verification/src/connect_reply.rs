//! What the collector answers during the handshake, as far as the agent goes
//! by it.

use vstd::prelude::*;
use crate::domain_defs::AgentRunId;
use crate::string_map::StringMap;

verus! {

/// The answer to `preconnect`.
pub struct PreconnectReply {
    /// The host to send everything else to.
    pub redirect_host: String,
}

/// The answer to `connect`.
pub struct ConnectReply {
    pub agent_run_id: AgentRunId,
    /// Headers to repeat on every later request of the session.
    pub request_headers_map: StringMap,
    /// The Apdex threshold in nanoseconds; `None` where the collector named
    /// no time that can be used as one.
    pub apdex_t: Option<u64>,
    pub event_harvest_config: EventHarvestConfig,
}

/// How often, and how many, events are to be reported.
#[derive(Debug, Clone, Copy, PartialEq, Eq, Structural)]
pub struct EventHarvestConfig {
    pub report_period_ms: Option<u32>,
    pub harvest_limits: HarvestLimits,
}

/// How many events of each kind one report may hold.
#[derive(Debug, Clone, Copy, PartialEq, Eq, Structural)]
pub struct HarvestLimits {
    pub analytic_event_data: Option<u32>,
    pub custom_event_data: Option<u32>,
    pub error_event_data: Option<u32>,
    pub span_event_data: Option<u32>,
}

} // verus!
