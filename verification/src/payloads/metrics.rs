//! The `metric_data` request.

use vstd::prelude::*;
use vstd::std_specs::convert::FromSpecImpl;
use crate::domain_defs::AgentRunId;
use crate::metrics::Metric;

verus! {

/// What a metric is filed under: a name, and for a scoped metric the
/// transaction it was measured in.
#[derive(Debug)]
pub struct MetricId {
    pub name: String,
    pub scope: Option<String>,
}

/// A `MetricId` as plain text.
pub struct MetricKey {
    pub name: Seq<char>,
    pub scope: Option<Seq<char>>,
}

impl View for MetricId {
    type V = MetricKey;

    open spec fn view(&self) -> MetricKey {
        MetricKey { name: self.name@, scope: self.scope.deep_view() }
    }
}

impl Clone for MetricId {
    fn clone(&self) -> (copy: Self)
        ensures
            copy == *self,
    {
        let scope = match &self.scope {
            Some(s) => Some(s.clone()),
            None => None,
        };
        MetricId { name: self.name.clone(), scope }
    }
}

/// The six numbers of a metric as they are reported. Times are in
/// nanoseconds, their squares in square nanoseconds.
#[derive(Debug, Clone, Copy, PartialEq, Eq, Structural)]
pub struct MetricValue {
    pub count_satisfied: u64,
    pub total_tolerated: u64,
    pub exclusive_failed: u64,
    pub min: u64,
    pub max: u64,
    pub sum_squares: u128,
}

impl MetricValue {
    /// The reported form of `m`: the same six numbers.
    pub open spec fn of(m: Metric) -> MetricValue {
        MetricValue {
            count_satisfied: m.count_satisfied,
            total_tolerated: m.total_tolerated,
            exclusive_failed: m.exclusive_failed,
            min: m.min,
            max: m.max,
            sum_squares: m.sum_squares,
        }
    }
}

impl From<Metric> for MetricValue {
    fn from(m: Metric) -> (value: MetricValue) {
        MetricValue {
            count_satisfied: m.count_satisfied,
            total_tolerated: m.total_tolerated,
            exclusive_failed: m.exclusive_failed,
            min: m.min,
            max: m.max,
            sum_squares: m.sum_squares,
        }
    }
}

impl FromSpecImpl<Metric> for MetricValue {
    open spec fn obeys_from_spec() -> bool {
        true
    }

    open spec fn from_spec(m: Metric) -> MetricValue {
        MetricValue::of(m)
    }
}

/// One line of a metric report.
#[derive(Debug)]
pub struct MetricRecord {
    pub id: MetricId,
    pub value: MetricValue,
}

impl View for MetricRecord {
    type V = (MetricKey, MetricValue);

    open spec fn view(&self) -> (MetricKey, MetricValue) {
        (self.id@, self.value)
    }
}

/// The metrics of one harvest period.
#[derive(Debug)]
pub struct CollectorPayload {
    pub agent_run_id: AgentRunId,
    /// Start of the period, in seconds since the Unix epoch.
    pub start: i64,
    /// End of the period, in seconds since the Unix epoch.
    pub end: i64,
    pub metrics: Vec<MetricRecord>,
}

impl CollectorPayload {
    /// The lines of the report as plain values, in order.
    pub open spec fn records(&self) -> Seq<(MetricKey, MetricValue)> {
        Seq::new(self.metrics@.len(), |i: int| self.metrics@[i]@)
    }
}

} // verus!
