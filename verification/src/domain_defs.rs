//! Identifiers handed out by the collector.

use vstd::prelude::*;

verus! {

/// The name the collector gave to one session of this agent.
#[derive(Debug)]
pub struct AgentRunId(pub String);

impl View for AgentRunId {
    type V = Seq<char>;

    open spec fn view(&self) -> Seq<char> {
        self.0@
    }
}

impl Clone for AgentRunId {
    fn clone(&self) -> (copy: Self)
        ensures
            copy == *self,
    {
        AgentRunId(self.0.clone())
    }
}

} // verus!
