//! What is sent to the collector, one module per kind of request.

use vstd::prelude::*;
use crate::string_map::StringMap;

pub mod analytics_events;
pub mod metrics;
pub mod transaction_trace;

verus! {

/// Attributes that the application attached to an event.
pub struct UserAttrs(pub StringMap);

/// Attributes that the agent attached to an event.
pub struct AgentAttrs(pub StringMap);

impl View for UserAttrs {
    type V = Seq<(Seq<char>, Seq<char>)>;

    open spec fn view(&self) -> Seq<(Seq<char>, Seq<char>)> {
        self.0@
    }
}

impl View for AgentAttrs {
    type V = Seq<(Seq<char>, Seq<char>)>;

    open spec fn view(&self) -> Seq<(Seq<char>, Seq<char>)> {
        self.0@
    }
}

impl UserAttrs {
    /// No attributes.
    pub fn new() -> (attrs: UserAttrs)
        ensures
            attrs@.len() == 0,
    {
        UserAttrs(StringMap::new())
    }
}

impl AgentAttrs {
    /// No attributes.
    pub fn new() -> (attrs: AgentAttrs)
        ensures
            attrs@.len() == 0,
    {
        AgentAttrs(StringMap::new())
    }
}

impl Clone for UserAttrs {
    fn clone(&self) -> (copy: Self)
        ensures
            copy@ == self@,
    {
        UserAttrs(self.0.clone())
    }
}

impl Clone for AgentAttrs {
    fn clone(&self) -> (copy: Self)
        ensures
            copy@ == self@,
    {
        AgentAttrs(self.0.clone())
    }
}

} // verus!
