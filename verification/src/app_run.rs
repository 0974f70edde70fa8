//! A session with the collector, as settled by the handshake.

use vstd::prelude::*;
use vstd::string::StringExecFns;
use crate::connect_reply::ConnectReply;
use crate::connect_reply::EventHarvestConfig;
use crate::connect_reply::PreconnectReply;
use crate::domain_defs::AgentRunId;
use crate::limits::DEFAULT_CONFIGURABLE_EVENT_HARVEST;
use crate::limits::FIXED_HARVEST_PERIOD;
use crate::limits::NANOS_PER_MILLI;
use crate::limits::NANOS_PER_SEC;
use crate::string_map::StringMap;

verus! {

/// The period of the harvests whose period the collector may set.
pub open spec fn configurable_period(config: EventHarvestConfig) -> u64 {
    match config.report_period_ms {
        Some(ms) => (ms * NANOS_PER_MILLI) as u64,
        None => DEFAULT_CONFIGURABLE_EVENT_HARVEST,
    }
}

/// The period of one kind of event: the configurable period where the
/// collector set a limit for that kind, the fixed one otherwise.
pub open spec fn selected_period(config: EventHarvestConfig, limit: Option<u32>) -> u64 {
    if limit is Some {
        configurable_period(config)
    } else {
        FIXED_HARVEST_PERIOD
    }
}

/// The Apdex threshold of a session: the one the collector named, or a
/// second.
pub open spec fn threshold_or_default(apdex_t: Option<u64>) -> u64 {
    match apdex_t {
        Some(t) => t,
        None => NANOS_PER_SEC,
    }
}

/// One session. It is made once by the handshake and only read after that.
pub struct AppRun {
    /// The host that all requests of the session go to.
    pub host: String,
    pub license: String,
    pub agent_run_id: AgentRunId,
    pub request_headers_map: StringMap,
    /// The Apdex threshold, in nanoseconds.
    pub apdex_t: u64,
    /// The harvest periods, in nanoseconds.
    pub metrics_traces_period: u64,
    pub span_events_period: u64,
    pub custom_events_period: u64,
    pub txn_events_period: u64,
    pub error_events_period: u64,
}

/// An `AppRun` as plain values.
pub struct AppRunView {
    pub host: Seq<char>,
    pub license: Seq<char>,
    pub agent_run_id: Seq<char>,
    pub request_headers_map: Seq<(Seq<char>, Seq<char>)>,
    pub apdex_t: u64,
    pub metrics_traces_period: u64,
    pub span_events_period: u64,
    pub custom_events_period: u64,
    pub txn_events_period: u64,
    pub error_events_period: u64,
}

impl View for AppRun {
    type V = AppRunView;

    open spec fn view(&self) -> AppRunView {
        AppRunView {
            host: self.host@,
            license: self.license@,
            agent_run_id: self.agent_run_id@,
            request_headers_map: self.request_headers_map@,
            apdex_t: self.apdex_t,
            metrics_traces_period: self.metrics_traces_period,
            span_events_period: self.span_events_period,
            custom_events_period: self.custom_events_period,
            txn_events_period: self.txn_events_period,
            error_events_period: self.error_events_period,
        }
    }
}

impl AppRun {
    /// The session that the two replies of a handshake describe.
    pub fn new(license: &str, reply_pre: &PreconnectReply, reply: &ConnectReply) -> (run: AppRun)
        ensures
            run.host@ == reply_pre.redirect_host@,
            run.license@ == license@,
            run.agent_run_id@ == reply.agent_run_id@,
            run.request_headers_map@ == reply.request_headers_map@,
            run.apdex_t == threshold_or_default(reply.apdex_t),
            run.metrics_traces_period == FIXED_HARVEST_PERIOD,
            run.span_events_period == selected_period(
                reply.event_harvest_config,
                reply.event_harvest_config.harvest_limits.span_event_data,
            ),
            run.custom_events_period == selected_period(
                reply.event_harvest_config,
                reply.event_harvest_config.harvest_limits.custom_event_data,
            ),
            run.txn_events_period == selected_period(
                reply.event_harvest_config,
                reply.event_harvest_config.harvest_limits.analytic_event_data,
            ),
            run.error_events_period == selected_period(
                reply.event_harvest_config,
                reply.event_harvest_config.harvest_limits.error_event_data,
            ),
            reply.event_harvest_config.report_period_ms is None ==> {
                &&& run.span_events_period == DEFAULT_CONFIGURABLE_EVENT_HARVEST
                &&& run.custom_events_period == DEFAULT_CONFIGURABLE_EVENT_HARVEST
                &&& run.txn_events_period == DEFAULT_CONFIGURABLE_EVENT_HARVEST
                &&& run.error_events_period == DEFAULT_CONFIGURABLE_EVENT_HARVEST
                &&& run.metrics_traces_period == FIXED_HARVEST_PERIOD
            },
    {
        let config = reply.event_harvest_config;
        let limits = config.harvest_limits;
        let configurable: u64 = match config.report_period_ms {
            Some(ms) => {
                assert(ms * NANOS_PER_MILLI <= u64::MAX) by (nonlinear_arith)
                    requires
                        ms <= u32::MAX,
                        NANOS_PER_MILLI == 1_000_000,
                ;
                (ms as u64) * NANOS_PER_MILLI
            },
            None => DEFAULT_CONFIGURABLE_EVENT_HARVEST,
        };
        let apdex_t: u64 = match reply.apdex_t {
            Some(t) => t,
            None => NANOS_PER_SEC,
        };
        AppRun {
            host: reply_pre.redirect_host.clone(),
            license: String::from_str(license),
            agent_run_id: reply.agent_run_id.clone(),
            request_headers_map: reply.request_headers_map.clone(),
            apdex_t,
            metrics_traces_period: FIXED_HARVEST_PERIOD,
            span_events_period: select_period(configurable, limits.span_event_data),
            custom_events_period: select_period(configurable, limits.custom_event_data),
            txn_events_period: select_period(configurable, limits.analytic_event_data),
            error_events_period: select_period(configurable, limits.error_event_data),
        }
    }
}

/// The period of one kind of event, `configurable` being the period that the
/// collector may set.
fn select_period(configurable: u64, limit: Option<u32>) -> (period: u64)
    ensures
        period == if limit is Some {
            configurable
        } else {
            FIXED_HARVEST_PERIOD
        },
{
    if limit.is_some() {
        configurable
    } else {
        FIXED_HARVEST_PERIOD
    }
}

impl Clone for AppRun {
    fn clone(&self) -> (copy: Self)
        ensures
            copy@ == self@,
    {
        AppRun {
            host: self.host.clone(),
            license: self.license.clone(),
            agent_run_id: self.agent_run_id.clone(),
            request_headers_map: self.request_headers_map.clone(),
            apdex_t: self.apdex_t,
            metrics_traces_period: self.metrics_traces_period,
            span_events_period: self.span_events_period,
            custom_events_period: self.custom_events_period,
            txn_events_period: self.txn_events_period,
            error_events_period: self.error_events_period,
        }
    }
}

} // verus!
