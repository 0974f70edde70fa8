//! Transactions: the units of work that an application has the agent time,
//! and what the end of one adds to the harvest.

use vstd::prelude::*;
use vstd::string::StringExecFns;
use crate::agent::is_ingested;
use crate::agent::Agent;
use crate::analytics_events::sampled;
use crate::apdex::zone_of;
use crate::apdex::ApdexZone;
use crate::app_run::AppRun;
use crate::assoc::lemma_position_is;
use crate::clock::duration_between;
use crate::clock::elapsed;
use crate::clock::seconds;
use crate::clock::whole_seconds;
use crate::clock::Clock;
use crate::config::clone_text;
use crate::harvest::Harvest;
use crate::limits::NANOS_PER_MILLI;
use crate::limits::TRACE_THRESHOLD;
use crate::metric_names::final_name;
use crate::metric_names::final_name_of;
use crate::metric_names::rollup;
use crate::metric_names::rollup_name;
use crate::metric_names::total_time_name;
use crate::metric_names::total_time_name_of;
use crate::metric_names::total_time_rollup;
use crate::metric_names::total_time_rollup_name;
use crate::metric_names::DISPATCHER_METRIC;
use crate::metrics::table_add;
use crate::metrics::Metric;
use crate::payloads::analytics_events::AnalyticsEvent;
use crate::payloads::analytics_events::AnalyticsEventWithAttrs;
use crate::payloads::analytics_events::TransactionEvent;
use crate::payloads::metrics::MetricKey;
use crate::payloads::transaction_trace::Intrinsics;
use crate::payloads::transaction_trace::Node;
use crate::payloads::transaction_trace::NodeAttrs;
use crate::payloads::transaction_trace::Properties;
use crate::payloads::transaction_trace::TraceData;
use crate::payloads::transaction_trace::TransactionTrace;
use crate::payloads::AgentAttrs;
use crate::payloads::UserAttrs;
use crate::string_map::StringMap;
use crate::transaction_trace::pushed;

verus! {

/// The name of the root segment of every trace.
pub const ROOT_SEGMENT: &'static str = "ROOT";

/// The web request that a transaction answers, as far as the agent reports
/// it.
#[derive(Debug)]
pub struct WebRequest {
    /// The request method, such as `GET`.
    pub method: String,
    /// The address that was asked for.
    pub uri: String,
    /// The `Host` header, where the request has one.
    pub host: Option<String>,
}

impl Clone for WebRequest {
    fn clone(&self) -> (copy: Self)
        ensures
            copy == *self,
    {
        WebRequest {
            method: self.method.clone(),
            uri: self.uri.clone(),
            host: clone_text(&self.host),
        }
    }
}

/// The attributes that the agent attaches to a transaction for the request it
/// answers: the method, the address, and the host if the request names one.
pub open spec fn request_attrs(web_request: Option<&WebRequest>) -> Seq<(Seq<char>, Seq<char>)> {
    match web_request {
        None => Seq::empty(),
        Some(request) => {
            let always = seq![
                ("request.method"@, request.method@),
                ("request.uri"@, request.uri@),
            ];
            match request.host {
                Some(host) => always.push(("request.headers.host"@, host@)),
                None => always,
            }
        },
    }
}

/// The attributes that the agent attaches to a transaction.
pub fn agent_attrs(web_request: Option<&WebRequest>) -> (attrs: AgentAttrs)
    ensures
        attrs@ == request_attrs(web_request),
{
    let mut map = StringMap::new();
    if let Some(request) = web_request {
        proof {
            // The three keys differ in their lengths.
            reveal_strlit("request.method");
            reveal_strlit("request.uri");
            reveal_strlit("request.headers.host");
            assert("request.uri"@.len() == 11);
            assert("request.headers.host"@.len() == 20);
            lemma_position_is(map@, "request.method"@, 0);
        }
        map.insert("request.method", request.method.as_str());
        proof {
            lemma_position_is(map@, "request.uri"@, 1);
        }
        map.insert("request.uri", request.uri.as_str());
        if let Some(host) = &request.host {
            proof {
                lemma_position_is(map@, "request.headers.host"@, 2);
            }
            map.insert("request.headers.host", host.as_str());
        }
    }
    AgentAttrs(map)
}

/// The key of a metric that is not measured inside a transaction.
pub open spec fn unscoped(name: Seq<char>) -> MetricKey {
    MetricKey { name, scope: None }
}

/// The metric table after a transaction called `name` (its metric name) ran
/// for `duration`. The time goes to the metric of the transaction, to the
/// rollup of its kind and, for a web transaction, to the dispatcher metric;
/// and, as total time, to the total-time metric of the transaction and to the
/// total-time rollup. Only the total-time metric of the transaction may find
/// the table full.
pub open spec fn metrics_with_transaction(
    table: Map<MetricKey, Metric>,
    name: Seq<char>,
    is_web: bool,
    duration: u64,
) -> Map<MetricKey, Metric> {
    let own = Metric::of_duration(duration, 0);
    let total = Metric::of_duration(duration, duration);
    let t1 = table_add(table, unscoped(name), own, true);
    let t2 = table_add(t1, unscoped(rollup(is_web)), own, true);
    let t3 = if is_web {
        table_add(t2, unscoped(DISPATCHER_METRIC@), own, true)
    } else {
        t2
    };
    let t4 = table_add(t3, unscoped(total_time_name_of(name, is_web)), total, false);
    table_add(t4, unscoped(total_time_rollup(is_web)), total, true)
}

/// Whether `entry` is the event of a transaction called `name` (its metric
/// name) that ended at `end` after `duration`, under the Apdex threshold
/// `apdex_t`. Only a web transaction has an Apdex zone.
pub open spec fn is_transaction_event(
    entry: AnalyticsEventWithAttrs,
    name: Seq<char>,
    web_request: Option<&WebRequest>,
    apdex_t: u64,
    end: u64,
    duration: u64,
) -> bool {
    &&& entry.event matches AnalyticsEvent::Transaction(event)
    &&& event.name@ == name
    &&& event.timestamp == whole_seconds(end)
    &&& event.apdex_perf_zone == if web_request is Some {
        Some(zone_of(apdex_t as int, duration as int))
    } else {
        None
    }
    &&& !event.error
    &&& event.duration == duration
    &&& event.total_time == duration
    &&& entry.user_attrs@.len() == 0
    &&& entry.agent_attrs@ == request_attrs(web_request)
}

/// Whether `trace` is the trace of a transaction called `name` (its metric
/// name) that began at `start` and ran for `duration`: a root segment over
/// the whole time, and in it one segment for the transaction itself.
pub open spec fn is_transaction_trace(
    trace: TransactionTrace,
    name: Seq<char>,
    web_request: Option<&WebRequest>,
    start: u64,
    duration: u64,
) -> bool {
    let root = trace.trace_data.node;
    let properties = trace.trace_data.properties;
    &&& trace.start == (start / 1000) as i64
    &&& trace.duration == duration
    &&& trace.name@ == name
    &&& trace.request_uri.deep_view() == match web_request {
        Some(request) => Some(request.uri@),
        None => None,
    }
    &&& trace.cat_guid@.len() == 0
    &&& !trace.force_persist
    &&& trace.synthetics_resource_id@.len() == 0
    &&& root.relative_start_millis == 0
    &&& root.relative_stop_millis == (duration / NANOS_PER_MILLI) as i64
    &&& root.name@ == ROOT_SEGMENT@
    &&& root.attrs.exclusive_duration is None
    &&& root.children@.len() == 1
    &&& root.children@[0].relative_start_millis == 0
    &&& root.children@[0].relative_stop_millis == (duration / NANOS_PER_MILLI) as i64
    &&& root.children@[0].name@ == name
    &&& root.children@[0].attrs.exclusive_duration == Some(duration)
    &&& root.children@[0].children@.len() == 0
    &&& properties.agent_attributes@ == request_attrs(web_request)
    &&& properties.user_attributes@.len() == 0
    &&& properties.intrinsics.total_time == duration
}

/// Whether a transaction of `duration` gets a trace.
pub open spec fn is_traced(tracing: bool, duration: u64) -> bool {
    tracing && duration >= TRACE_THRESHOLD
}

/// Whether `after` is the harvest `before` with one more transaction, which
/// the application called `name` and which ran from `start` to `end` on the
/// wall clock: its event is offered to the reservoir, its time is added to
/// the metric table, and its trace is kept if traces are made (`tracing`)
/// and the transaction was slow. The timers are not touched.
pub open spec fn is_recorded(
    before: Harvest,
    after: Harvest,
    run: AppRun,
    tracing: bool,
    name: Seq<char>,
    web_request: Option<&WebRequest>,
    start: u64,
    end: u64,
    draw: u64,
) -> bool {
    let full = final_name_of(name, web_request is Some);
    let duration = elapsed(start, end);
    &&& after.metrics_traces_timer == before.metrics_traces_timer
    &&& after.span_events_timer == before.span_events_timer
    &&& after.custom_events_timer == before.custom_events_timer
    &&& after.txn_events_timer == before.txn_events_timer
    &&& after.error_events_timer == before.error_events_timer
    &&& after.txn_events.capacity() == before.txn_events.capacity()
    &&& after.txn_events.seen() == before.txn_events.seen().saturating_add(1)
    &&& exists|entry: AnalyticsEventWithAttrs|
        {
            &&& #[trigger] is_transaction_event(
                entry,
                full,
                web_request,
                run.apdex_t,
                end,
                duration,
            )
            &&& after.txn_events@ == sampled(
                before.txn_events@,
                before.txn_events.capacity(),
                after.txn_events.seen() as nat,
                entry,
                draw as nat,
            )
        }
    &&& after.metric_table@ == metrics_with_transaction(
        before.metric_table@,
        full,
        web_request is Some,
        duration,
    )
    &&& after.metric_table.started() == before.metric_table.started()
    &&& if is_traced(tracing, duration) {
        exists|trace: TransactionTrace|
            {
                &&& #[trigger] is_transaction_trace(trace, full, web_request, start, duration)
                &&& after.txn_traces@ == pushed(before.txn_traces@, trace)
            }
    } else {
        after.txn_traces == before.txn_traces
    }
}

/// Adds a finished transaction to `harvest`. `name` is what the application
/// called it, `start` and `end` are readings of the wall clock, `tracing`
/// says whether traces are made, and `draw` is a random number for the event
/// reservoir.
pub fn record_transaction(
    harvest: &mut Harvest,
    run: &AppRun,
    tracing: bool,
    name: &str,
    web_request: Option<&WebRequest>,
    start: u64,
    end: u64,
    draw: u64,
)
    ensures
        is_recorded(
            *old(harvest),
            *final(harvest),
            *run,
            tracing,
            name@,
            web_request,
            start,
            end,
            draw,
        ),
{
    let is_web = web_request.is_some();
    let full = final_name(name, is_web);
    let duration = duration_between(start, end);
    let entry = AnalyticsEventWithAttrs {
        event: AnalyticsEvent::Transaction(
            TransactionEvent {
                name: full.clone(),
                timestamp: seconds(end),
                apdex_perf_zone: if is_web {
                    Some(ApdexZone::calculate(run.apdex_t, duration))
                } else {
                    None
                },
                error: false,
                duration,
                total_time: duration,
            },
        ),
        user_attrs: UserAttrs::new(),
        agent_attrs: agent_attrs(web_request),
    };
    assert(is_transaction_event(entry, full@, web_request, run.apdex_t, end, duration));
    harvest.txn_events.push(entry, draw);
    harvest.metric_table.add_duration(full.as_str(), None, duration, 0, true);
    harvest.metric_table.add_duration(rollup_name(is_web), None, duration, 0, true);
    if is_web {
        harvest.metric_table.add_duration(DISPATCHER_METRIC, None, duration, 0, true);
    }
    let total_name = total_time_name(full.as_str(), is_web);
    harvest.metric_table.add_duration(total_name.as_str(), None, duration, duration, false);
    harvest.metric_table.add_duration(
        total_time_rollup_name(is_web),
        None,
        duration,
        duration,
        true,
    );
    if tracing && duration >= TRACE_THRESHOLD {
        let stop = (duration / NANOS_PER_MILLI) as i64;
        let mut children: Vec<Node> = Vec::new();
        children.push(
            Node {
                relative_start_millis: 0,
                relative_stop_millis: stop,
                name: full.clone(),
                attrs: NodeAttrs { exclusive_duration: Some(duration) },
                children: Vec::new(),
            },
        );
        let trace = TransactionTrace {
            start: (start / 1000) as i64,
            duration,
            name: full,
            request_uri: match web_request {
                Some(request) => Some(request.uri.clone()),
                None => None,
            },
            trace_data: TraceData {
                node: Node {
                    relative_start_millis: 0,
                    relative_stop_millis: stop,
                    name: String::from_str(ROOT_SEGMENT),
                    attrs: NodeAttrs { exclusive_duration: None },
                    children,
                },
                properties: Properties {
                    agent_attributes: agent_attrs(web_request),
                    user_attributes: UserAttrs::new(),
                    intrinsics: Intrinsics { total_time: duration },
                },
            },
            cat_guid: String::new(),
            force_persist: false,
            synthetics_resource_id: String::new(),
        };
        assert(is_transaction_trace(trace, full@, web_request, start, duration));
        harvest.txn_traces.push(trace);
    }
}

/// The thread on which a transaction starts.
pub const MAIN_THREAD_ID: usize = 0;

/// One thread of a transaction.
#[derive(Debug, Clone, Copy, PartialEq, Eq, Structural)]
pub struct Thread {
    /// When the thread began to work on the transaction.
    pub start: u64,
    /// When it was done, once it is.
    pub end: Option<u64>,
}

impl Thread {
    /// A thread that begins at `now`.
    pub fn new(now: u64) -> (thread: Thread)
        ensures
            thread == (Thread { start: now, end: None }),
    {
        Thread { start: now, end: None }
    }
}

/// The threads of a transaction.
#[derive(Debug)]
pub struct TransactionState {
    pub threads: Vec<Thread>,
}

impl TransactionState {
    /// A transaction that begins at `now` on one thread.
    pub fn new(now: u64) -> (state: TransactionState)
        ensures
            state.threads@ == seq![Thread { start: now, end: None }],
    {
        let mut threads: Vec<Thread> = Vec::new();
        threads.push(Thread::new(now));
        TransactionState { threads }
    }
}

/// A transaction that is being timed.
#[derive(Debug)]
pub struct Transaction {
    /// What the application calls the transaction.
    pub name: String,
    /// The request it answers, for a web transaction.
    pub web_request: Option<WebRequest>,
    /// When it began, on the monotonic clock.
    pub start: u64,
    pub state: Option<TransactionState>,
    pub thread_id: usize,
}

impl Transaction {
    /// Whether this is a transaction called `name` that has just begun, at
    /// `now`, on its main thread.
    pub open spec fn is_begun(
        &self,
        name: Seq<char>,
        web_request: Option<WebRequest>,
        now: u64,
    ) -> bool {
        &&& self.name@ == name
        &&& self.web_request == web_request
        &&& self.start == now
        &&& self.state matches Some(state)
        &&& state.threads@ == seq![Thread { start: now, end: None }]
        &&& self.thread_id == MAIN_THREAD_ID
    }

    /// A transaction called `name` that begins at `now` on the monotonic
    /// clock.
    pub fn new(name: &str, web_request: Option<WebRequest>, now: u64) -> (txn: Transaction)
        ensures
            txn.is_begun(name@, web_request, now),
    {
        Transaction {
            name: String::from_str(name),
            web_request,
            start: now,
            state: Some(TransactionState::new(now)),
            thread_id: MAIN_THREAD_ID,
        }
    }

    /// Whether the transaction answers a web request.
    pub open spec fn is_web(&self) -> bool {
        self.web_request is Some
    }

    /// The request that the transaction answers, if it answers one.
    pub open spec fn request(&self) -> Option<&WebRequest> {
        match self.web_request {
            Some(request) => Some(&request),
            None => None,
        }
    }

    /// The metric name of the transaction.
    pub fn final_name(&self) -> (full: String)
        ensures
            full@ == final_name_of(self.name@, self.is_web()),
    {
        final_name(self.name.as_str(), self.web_request.is_some())
    }

    /// When a transaction that ends at `now` began on the wall clock: as long
    /// before `now` as the monotonic clock says, but not before the epoch.
    pub open spec fn began(&self, now: Clock) -> u64 {
        now.unix.saturating_sub(elapsed(self.start, now.monotonic))
    }

    /// Ends the transaction at `now` and hands it to `agent`. `draw` is a
    /// random number for the event reservoir.
    pub fn stop(&self, agent: &mut Agent, now: Clock, draw: u64)
        ensures
            is_ingested(
                *old(agent),
                *final(agent),
                self.name@,
                self.request(),
                self.began(now),
                now.unix,
                draw,
            ),
    {
        let duration = duration_between(self.start, now.monotonic);
        let start = now.unix.saturating_sub(duration);
        agent.on_transaction_end(
            self.name.as_str(),
            self.web_request.as_ref(),
            start,
            now.unix,
            draw,
        );
    }
}

} // verus!
