//! The event reservoir: a bounded sample of the events of one harvest period.

use vstd::prelude::*;
use crate::domain_defs::AgentRunId;
use crate::limits::MAX_TXN_EVENTS;
use crate::payloads::analytics_events::AnalyticsEventWithAttrs;
use crate::payloads::analytics_events::CollectorPayload;
use crate::payloads::analytics_events::Properties;

verus! {

/// The events kept after `event` was offered as number `seen` to a reservoir
/// of `capacity` that holds `events`. While there is room the event is
/// appended. After that it takes the slot `draw` modulo `seen`, if there is
/// such a slot, and is left out otherwise; with a uniform `draw` every event
/// offered so far is then kept with the same probability.
pub open spec fn sampled(
    events: Seq<AnalyticsEventWithAttrs>,
    capacity: nat,
    seen: nat,
    event: AnalyticsEventWithAttrs,
    draw: nat,
) -> Seq<AnalyticsEventWithAttrs> {
    if events.len() < capacity {
        events.push(event)
    } else if seen > 0 && draw % seen < events.len() {
        events.update((draw % seen) as int, event)
    } else {
        events
    }
}

/// A reservoir never holds more events than it has room for, and while there
/// is room every event offered is kept, behind those that came before.
pub proof fn law_sample_is_bounded(
    events: Seq<AnalyticsEventWithAttrs>,
    capacity: nat,
    seen: nat,
    event: AnalyticsEventWithAttrs,
    draw: nat,
)
    requires
        events.len() <= capacity,
    ensures
        sampled(events, capacity, seen, event, draw).len() <= capacity,
        events.len() < capacity ==> sampled(events, capacity, seen, event, draw) == events.push(
            event,
        ),
        events.len() == capacity ==> sampled(events, capacity, seen, event, draw).len()
            == capacity,
{
}

/// `n` as a 32-bit count; larger numbers are reported as the largest count.
pub open spec fn count_i32(n: nat) -> i32 {
    if n > i32::MAX {
        i32::MAX
    } else {
        n as i32
    }
}

/// A sample of the events offered since the last harvest, in the order in
/// which they came while there was room.
pub struct EventReservoir {
    capacity: usize,
    seen: u64,
    events: Vec<AnalyticsEventWithAttrs>,
}

impl View for EventReservoir {
    type V = Seq<AnalyticsEventWithAttrs>;

    closed spec fn view(&self) -> Seq<AnalyticsEventWithAttrs> {
        self.events@
    }
}

impl EventReservoir {
    /// How many events the reservoir keeps at most.
    pub closed spec fn capacity(&self) -> nat {
        self.capacity as nat
    }

    /// How many events were offered, up to the largest number that is counted.
    pub closed spec fn seen(&self) -> u64 {
        self.seen
    }

    /// Whether this is a reservoir as a harvest period starts with: empty,
    /// with room for `MAX_TXN_EVENTS` events.
    pub open spec fn is_fresh(&self) -> bool {
        self@.len() == 0 && self.seen() == 0 && self.capacity() == MAX_TXN_EVENTS
    }

    #[verifier::type_invariant]
    spec fn within_capacity(self) -> bool {
        self.events@.len() <= self.capacity
    }

    /// An empty reservoir for `MAX_TXN_EVENTS` events.
    pub fn new() -> (reservoir: EventReservoir)
        ensures
            reservoir.is_fresh(),
    {
        EventReservoir { capacity: MAX_TXN_EVENTS as usize, seen: 0, events: Vec::new() }
    }

    /// An empty reservoir for `capacity` events.
    pub fn with_capacity(capacity: usize) -> (reservoir: EventReservoir)
        ensures
            reservoir@.len() == 0,
            reservoir.seen() == 0,
            reservoir.capacity() == capacity,
    {
        EventReservoir { capacity, seen: 0, events: Vec::new() }
    }

    /// The number of events kept.
    pub fn len(&self) -> (n: usize)
        ensures
            n == self@.len(),
            n <= self.capacity(),
    {
        proof {
            use_type_invariant(self);
        }
        self.events.len()
    }

    /// The number of events offered.
    pub fn events_seen(&self) -> (n: u64)
        ensures
            n == self.seen(),
    {
        self.seen
    }

    /// The `i`-th event kept.
    pub fn get(&self, i: usize) -> (event: &AnalyticsEventWithAttrs)
        requires
            i < self@.len(),
        ensures
            *event == self@[i as int],
    {
        &self.events[i]
    }

    /// Offers `event` to the reservoir. `draw` decides what happens to it
    /// once the reservoir is full, and should be a fresh random number.
    pub fn push(&mut self, event: AnalyticsEventWithAttrs, draw: u64)
        ensures
            final(self).capacity() == old(self).capacity(),
            final(self).seen() == old(self).seen().saturating_add(1),
            final(self)@ == sampled(
                old(self)@,
                old(self).capacity(),
                final(self).seen() as nat,
                event,
                draw as nat,
            ),
    {
        proof {
            use_type_invariant(&*self);
        }
        let seen = self.seen.saturating_add(1);
        let mut events: Vec<AnalyticsEventWithAttrs> = Vec::new();
        std::mem::swap(&mut self.events, &mut events);
        if events.len() < self.capacity {
            events.push(event);
        } else {
            let slot = draw % seen;
            if slot < events.len() as u64 {
                events.set(slot as usize, event);
            }
        }
        self.seen = seen;
        self.events = events;
    }

    /// Whether `report` is the report of the events kept, for the session
    /// `run_id`.
    pub open spec fn is_reported_as(&self, report: CollectorPayload, run_id: Seq<char>) -> bool {
        &&& report.agent_run_id@ == run_id
        &&& report.properties.reservoir_size == count_i32(self.capacity())
        &&& report.properties.events_seen == count_i32(self.seen() as nat)
        &&& report.events@ == self@
    }

    /// The report of the events kept, for the session `agent_run_id`.
    pub fn into_payload(self, agent_run_id: &AgentRunId) -> (report: CollectorPayload)
        ensures
            self.is_reported_as(report, agent_run_id@),
    {
        let reservoir_size = if self.capacity > i32::MAX as usize {
            i32::MAX
        } else {
            self.capacity as i32
        };
        let events_seen = if self.seen > i32::MAX as u64 {
            i32::MAX
        } else {
            self.seen as i32
        };
        CollectorPayload {
            agent_run_id: agent_run_id.clone(),
            properties: Properties { reservoir_size, events_seen },
            events: self.events,
        }
    }
}

} // verus!
