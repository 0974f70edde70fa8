//! The traces kept between two harvests.

use vstd::prelude::*;
use crate::domain_defs::AgentRunId;
use crate::limits::MAX_REGULAR_TRACES;
use crate::payloads::transaction_trace::CollectorPayload;
use crate::payloads::transaction_trace::TransactionTrace;

verus! {

/// `traces` after `trace` came in: at the cap the oldest one leaves first.
pub open spec fn pushed(traces: Seq<TransactionTrace>, trace: TransactionTrace) -> Seq<
    TransactionTrace,
> {
    if traces.len() >= MAX_REGULAR_TRACES {
        traces.skip(1).push(trace)
    } else {
        traces.push(trace)
    }
}

/// The most recent traces, oldest first; never more than
/// `MAX_REGULAR_TRACES`.
pub struct HarvestTraces {
    regular: Vec<TransactionTrace>,
}

impl View for HarvestTraces {
    type V = Seq<TransactionTrace>;

    closed spec fn view(&self) -> Seq<TransactionTrace> {
        self.regular@
    }
}

impl HarvestTraces {
    #[verifier::type_invariant]
    spec fn within_cap(self) -> bool {
        self.regular@.len() <= MAX_REGULAR_TRACES
    }

    /// No traces.
    pub fn new() -> (traces: HarvestTraces)
        ensures
            traces@.len() == 0,
    {
        HarvestTraces { regular: Vec::with_capacity(MAX_REGULAR_TRACES) }
    }

    /// The number of traces kept.
    pub fn len(&self) -> (n: usize)
        ensures
            n == self@.len(),
            n <= MAX_REGULAR_TRACES,
    {
        proof {
            use_type_invariant(self);
        }
        self.regular.len()
    }

    /// Keeps `trace`. Where that would be one too many, the oldest trace is
    /// dropped.
    pub fn push(&mut self, trace: TransactionTrace)
        ensures
            final(self)@ == pushed(old(self)@, trace),
            final(self)@.len() <= MAX_REGULAR_TRACES,
    {
        proof {
            use_type_invariant(&*self);
        }
        let mut regular: Vec<TransactionTrace> = Vec::new();
        std::mem::swap(&mut self.regular, &mut regular);
        if regular.len() >= MAX_REGULAR_TRACES {
            regular.remove(0);
        }
        regular.push(trace);
        self.regular = regular;
    }

    /// The report of the traces kept, for the session `agent_run_id`.
    pub fn into_payload(self, agent_run_id: &AgentRunId) -> (report: CollectorPayload)
        ensures
            report.agent_run_id@ == agent_run_id@,
            report.traces@ == self@,
    {
        CollectorPayload { agent_run_id: agent_run_id.clone(), traces: self.regular }
    }
}

} // verus!
