//! The harvest: what has been gathered in a session, the timers that say when
//! each kind of data is due, and the order in which what is due is sent.

use vstd::prelude::*;
use crate::analytics_events::EventReservoir;
use crate::app_run::AppRun;
use crate::clock::Clock;
use crate::collector::RpmError;
use crate::metric_names::INSTANCE_REPORTING;
use crate::metrics::key_of;
use crate::metrics::table_add;
use crate::metrics::Metric;
use crate::metrics::MetricTable;
use crate::payloads::analytics_events;
use crate::payloads::metrics;
use crate::payloads::metrics::MetricKey;
use crate::payloads::transaction_trace;
use crate::transaction_trace::HarvestTraces;

verus! {

/// Says when one kind of data is due.
#[derive(Debug, Clone, Copy, PartialEq, Eq, Structural)]
pub struct HarvestTimer {
    /// The time from one harvest to the next.
    pub duration: u64,
    /// When the data was last harvested, on the monotonic clock.
    pub last_harvest: u64,
}

impl HarvestTimer {
    /// Whether the data is due at `now`: a full period has passed since the
    /// last harvest, or the harvest is forced.
    pub open spec fn due(self, now: u64, force: bool) -> bool {
        force || now >= self.last_harvest + self.duration
    }

    /// The timer after it was asked at `now`: a timer that is due starts its
    /// next period.
    pub open spec fn asked(self, now: u64, force: bool) -> HarvestTimer {
        if self.due(now, force) {
            HarvestTimer { duration: self.duration, last_harvest: now }
        } else {
            self
        }
    }

    /// A timer whose first period starts at `now`.
    pub fn new(duration: u64, now: u64) -> (timer: HarvestTimer)
        ensures
            timer == (HarvestTimer { duration, last_harvest: now }),
    {
        HarvestTimer { duration, last_harvest: now }
    }

    /// Whether the data is due at `now`. A timer that answers yes starts its
    /// next period.
    pub fn ready(&mut self, now: u64, force: bool) -> (due: bool)
        ensures
            due == old(self).due(now, force),
            *final(self) == old(self).asked(now, force),
    {
        if force || now as u128 >= self.last_harvest as u128 + self.duration as u128 {
            self.last_harvest = now;
            true
        } else {
            false
        }
    }
}

/// What a session has gathered and not yet sent.
pub struct Harvest {
    pub metrics_traces_timer: HarvestTimer,
    pub span_events_timer: HarvestTimer,
    pub custom_events_timer: HarvestTimer,
    pub txn_events_timer: HarvestTimer,
    pub error_events_timer: HarvestTimer,
    pub txn_events: EventReservoir,
    pub metric_table: MetricTable,
    pub txn_traces: HarvestTraces,
}

/// What was taken out of a `Harvest` to be sent.
pub struct HarvestReady {
    pub txn_events: Option<EventReservoir>,
    pub metric_table: Option<MetricTable>,
    pub txn_traces: Option<HarvestTraces>,
}

/// The key that counts the harvests of an agent.
pub open spec fn instance_reporting_key() -> MetricKey {
    MetricKey { name: INSTANCE_REPORTING@, scope: None }
}

impl Harvest {
    /// Whether this is a harvest as a session starts with at `now`: nothing
    /// gathered, and every period of `run` just begun.
    pub open spec fn is_fresh(&self, run: AppRun, now: u64) -> bool {
        &&& self.metrics_traces_timer == (HarvestTimer {
            duration: run.metrics_traces_period,
            last_harvest: now,
        })
        &&& self.span_events_timer == (HarvestTimer {
            duration: run.span_events_period,
            last_harvest: now,
        })
        &&& self.custom_events_timer == (HarvestTimer {
            duration: run.custom_events_period,
            last_harvest: now,
        })
        &&& self.txn_events_timer == (HarvestTimer {
            duration: run.txn_events_period,
            last_harvest: now,
        })
        &&& self.error_events_timer == (HarvestTimer {
            duration: run.error_events_period,
            last_harvest: now,
        })
        &&& self.txn_events.is_fresh()
        &&& self.metric_table@ == Map::<MetricKey, Metric>::empty()
        &&& self.metric_table.started() == now
        &&& self.txn_traces@.len() == 0
    }

    /// An empty harvest for the session `run`, which starts at `now` on the
    /// monotonic clock.
    pub fn new(run: &AppRun, now: u64) -> (harvest: Harvest)
        ensures
            harvest.is_fresh(*run, now),
    {
        Harvest {
            metrics_traces_timer: HarvestTimer::new(run.metrics_traces_period, now),
            span_events_timer: HarvestTimer::new(run.span_events_period, now),
            custom_events_timer: HarvestTimer::new(run.custom_events_period, now),
            txn_events_timer: HarvestTimer::new(run.txn_events_period, now),
            error_events_timer: HarvestTimer::new(run.error_events_period, now),
            txn_events: EventReservoir::new(),
            metric_table: MetricTable::new(now),
            txn_traces: HarvestTraces::new(),
        }
    }

    /// Whether `ready` and `after` are what a harvest `self` gives up, and
    /// what it goes on with, when it is asked at `now`.
    ///
    /// Every timer that is due starts its next period. When metrics and traces
    /// are due, the table counts the harvest under `Instance/Reporting` and is
    /// taken out together with the traces; both start again empty. When
    /// transaction events are due, the reservoir is taken out and starts
    /// again empty. What is not due stays where it is.
    pub open spec fn is_swapped(
        &self,
        now: u64,
        force: bool,
        ready: HarvestReady,
        after: Harvest,
    ) -> bool {
        &&& after.metrics_traces_timer == self.metrics_traces_timer.asked(now, force)
        &&& after.span_events_timer == self.span_events_timer.asked(now, force)
        &&& after.custom_events_timer == self.custom_events_timer.asked(now, force)
        &&& after.txn_events_timer == self.txn_events_timer.asked(now, force)
        &&& after.error_events_timer == self.error_events_timer.asked(now, force)
        &&& if self.metrics_traces_timer.due(now, force) {
            &&& ready.metric_table matches Some(table)
            &&& table@ == table_add(
                self.metric_table@,
                instance_reporting_key(),
                Metric::of_count(1),
                true,
            )
            &&& table.started() == self.metric_table.started()
            &&& ready.txn_traces == Some(self.txn_traces)
            &&& after.metric_table@ == Map::<MetricKey, Metric>::empty()
            &&& after.metric_table.started() == now
            &&& after.txn_traces@.len() == 0
        } else {
            &&& ready.metric_table is None
            &&& ready.txn_traces is None
            &&& after.metric_table == self.metric_table
            &&& after.txn_traces == self.txn_traces
        }
        &&& if self.txn_events_timer.due(now, force) {
            &&& ready.txn_events == Some(self.txn_events)
            &&& after.txn_events.is_fresh()
        } else {
            &&& ready.txn_events is None
            &&& after.txn_events == self.txn_events
        }
    }

    /// Takes out of the harvest what is due at `now`, or everything if
    /// `force` is set, and lets the harvest go on without it.
    pub fn ready(&mut self, now: u64, force: bool) -> (ready: HarvestReady)
        ensures
            old(self).is_swapped(now, force, ready, *final(self)),
    {
        let mut ready = HarvestReady::default();
        if self.metrics_traces_timer.ready(now, force) {
            self.metric_table.add_count(INSTANCE_REPORTING, None, 1, true);
            let mut table = MetricTable::new(now);
            std::mem::swap(&mut self.metric_table, &mut table);
            ready.metric_table = Some(table);
            let mut traces = HarvestTraces::new();
            std::mem::swap(&mut self.txn_traces, &mut traces);
            ready.txn_traces = Some(traces);
        }
        let _ = self.span_events_timer.ready(now, force);
        let _ = self.custom_events_timer.ready(now, force);
        if self.txn_events_timer.ready(now, force) {
            let mut events = EventReservoir::new();
            std::mem::swap(&mut self.txn_events, &mut events);
            ready.txn_events = Some(events);
        }
        let _ = self.error_events_timer.ready(now, force);
        ready
    }
}

/// A forced harvest takes out everything, and every timer starts its next
/// period.
pub proof fn law_forced_takes_all(before: Harvest, now: u64, ready: HarvestReady, after: Harvest)
    requires
        before.is_swapped(now, true, ready, after),
    ensures
        ready.metric_table is Some,
        ready.txn_traces == Some(before.txn_traces),
        ready.txn_events == Some(before.txn_events),
        after.metrics_traces_timer.last_harvest == now,
        after.span_events_timer.last_harvest == now,
        after.custom_events_timer.last_harvest == now,
        after.txn_events_timer.last_harvest == now,
        after.error_events_timer.last_harvest == now,
        after.metric_table@.dom().len() == 0,
        after.txn_traces@.len() == 0,
        after.txn_events@.len() == 0,
{
}

/// When nothing is due, nothing is taken out and nothing changes.
pub proof fn law_nothing_due(before: Harvest, now: u64, ready: HarvestReady, after: Harvest)
    requires
        !before.metrics_traces_timer.due(now, false),
        !before.span_events_timer.due(now, false),
        !before.custom_events_timer.due(now, false),
        !before.txn_events_timer.due(now, false),
        !before.error_events_timer.due(now, false),
        before.is_swapped(now, false, ready, after),
    ensures
        ready.is_empty(),
        after == before,
{
}

impl Default for HarvestReady {
    fn default() -> (ready: HarvestReady)
        ensures
            ready.is_empty(),
    {
        HarvestReady { txn_events: None, metric_table: None, txn_traces: None }
    }
}

/// One request that carries harvested data.
pub enum Shipment {
    Metrics(metrics::CollectorPayload),
    Traces(transaction_trace::CollectorPayload),
    Events(analytics_events::CollectorPayload),
}

impl Shipment {
    /// The method of the collector that takes the request.
    pub open spec fn method_name(self) -> Seq<char> {
        match self {
            Shipment::Metrics(_) => "metric_data"@,
            Shipment::Traces(_) => "transaction_sample_data"@,
            Shipment::Events(_) => "analytic_event_data"@,
        }
    }

    /// The method of the collector that takes the request.
    pub fn method(&self) -> (name: &'static str)
        ensures
            name@ == self.method_name(),
    {
        match self {
            Shipment::Metrics(_) => "metric_data",
            Shipment::Traces(_) => "transaction_sample_data",
            Shipment::Events(_) => "analytic_event_data",
        }
    }
}

/// What to do next while a harvest is sent.
pub enum ShipStep {
    /// Send this request and come back with the outcome.
    Send(Shipment),
    /// Nothing is left to send, or the session broke: this is the outcome of
    /// the whole harvest.
    Done(Result<(), RpmError>),
}

/// Whether `failure`, the error of the last request if it failed, breaks off
/// the sending: it does when it ends the agent or the session.
pub open spec fn breaks_off(failure: Option<RpmError>) -> bool {
    failure matches Some(error) && (error.disconnects() || error.restarts())
}

impl HarvestReady {
    /// Whether nothing was taken out.
    pub open spec fn is_empty(&self) -> bool {
        self.txn_events is None && self.metric_table is None && self.txn_traces is None
    }

    /// Whether there are traces to send.
    pub open spec fn has_traces(&self) -> bool {
        self.txn_traces matches Some(traces) && traces@.len() > 0
    }

    /// Whether `step` and `after` are the next step of sending `self`, and
    /// what is left of it, for the session `run` at `now`, after the last
    /// request failed with `failure` or did not fail.
    ///
    /// A failure that ends the agent or the session is the outcome of the
    /// whole harvest. After any other, sending goes on: first the metrics,
    /// then the traces, if there are any, then the events. When nothing is
    /// left the outcome is success.
    pub open spec fn is_next(
        &self,
        run: AppRun,
        now: Clock,
        failure: Option<RpmError>,
        step: ShipStep,
        after: HarvestReady,
    ) -> bool {
        if breaks_off(failure) {
            step == ShipStep::Done(Err(failure->0)) && after == *self
        } else if self.metric_table is Some {
            &&& step matches ShipStep::Send(Shipment::Metrics(report))
            &&& self.metric_table->0.is_reported_as(report, run.agent_run_id@, now)
            &&& after.metric_table is None
            &&& after.txn_traces == self.txn_traces
            &&& after.txn_events == self.txn_events
        } else if self.has_traces() {
            &&& step matches ShipStep::Send(Shipment::Traces(report))
            &&& report.agent_run_id@ == run.agent_run_id@
            &&& report.traces@ == self.txn_traces->0@
            &&& after.metric_table is None
            &&& after.txn_traces is None
            &&& after.txn_events == self.txn_events
        } else if self.txn_events is Some {
            &&& step matches ShipStep::Send(Shipment::Events(report))
            &&& self.txn_events->0.is_reported_as(report, run.agent_run_id@)
            &&& after.is_empty()
        } else {
            step == ShipStep::Done(Ok(())) && after.is_empty()
        }
    }

    /// How many kinds of data are still to be sent or looked at.
    pub open spec fn pending(&self) -> nat {
        (if self.metric_table is Some {
            1nat
        } else {
            0nat
        }) + (if self.txn_traces is Some {
            1nat
        } else {
            0nat
        }) + (if self.txn_events is Some {
            1nat
        } else {
            0nat
        })
    }

    /// The next step of sending what was taken out. `failure` is the error of
    /// the request sent last, if there was one and it failed.
    pub fn next_shipment(&mut self, run: &AppRun, now: Clock, failure: Option<RpmError>) -> (step:
        ShipStep)
        ensures
            old(self).is_next(*run, now, failure, step, *final(self)),
    {
        if let Some(error) = failure {
            if error.is_disconnect() || error.is_restart_exception() {
                return ShipStep::Done(Err(error));
            }
        }
        if let Some(table) = self.metric_table.take() {
            let report = table.payload(&run.agent_run_id, now);
            return ShipStep::Send(Shipment::Metrics(report));
        }
        if let Some(traces) = self.txn_traces.take() {
            let report = traces.into_payload(&run.agent_run_id);
            if !report.is_empty() {
                return ShipStep::Send(Shipment::Traces(report));
            }
        }
        if let Some(events) = self.txn_events.take() {
            let report = events.into_payload(&run.agent_run_id);
            return ShipStep::Send(Shipment::Events(report));
        }
        ShipStep::Done(Ok(()))
    }
}

/// Sending comes to an end: every request takes a kind of data off the list,
/// each kind is sent once at most, and at the end nothing is left.
pub proof fn law_shipping_ends(
    before: HarvestReady,
    run: AppRun,
    now: Clock,
    failure: Option<RpmError>,
    step: ShipStep,
    after: HarvestReady,
)
    requires
        before.is_next(run, now, failure, step, after),
    ensures
        step is Send ==> after.pending() < before.pending(),
        step matches ShipStep::Send(Shipment::Metrics(_)) ==> before.metric_table is Some
            && after.metric_table is None,
        step matches ShipStep::Send(Shipment::Traces(_)) ==> before.has_traces()
            && after.txn_traces is None,
        step matches ShipStep::Send(Shipment::Events(_)) ==> before.txn_events is Some
            && after.txn_events is None,
        step == ShipStep::Done(Ok(())) ==> after.pending() == 0,
        step matches ShipStep::Done(Err(error)) ==> failure == Some(error) && (error.disconnects()
            || error.restarts()),
{
}

} // verus!
