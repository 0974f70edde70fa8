//! The metric table: timings and counts, summed up under their names between
//! two harvests.

use vstd::prelude::*;
use vstd::string::StringExecFns;
use crate::assoc::as_map;
use crate::assoc::distinct_keys;
use crate::assoc::has_key;
use crate::assoc::lemma_as_map_len;
use crate::assoc::lemma_position;
use crate::assoc::lemma_position_is;
use crate::assoc::lemma_put;
use crate::assoc::position;
use crate::assoc::put;
use crate::clock::duration_between;
use crate::clock::elapsed;
use crate::clock::seconds;
use crate::clock::whole_seconds;
use crate::clock::Clock;
use crate::domain_defs::AgentRunId;
use crate::limits::MAX_METRICS;
use crate::metric_names::SUPPORTABILITY_DROPPED;
use crate::payloads::metrics::CollectorPayload;
use crate::payloads::metrics::MetricId;
use crate::payloads::metrics::MetricKey;
use crate::payloads::metrics::MetricRecord;
use crate::payloads::metrics::MetricValue;
use crate::text::str_eq;

verus! {

/// Six running numbers about one thing that was measured. For a timing they
/// are the number of calls, the total and the exclusive time, the shortest and
/// the longest call, and the sum of the squared times. Sums stop at the
/// largest value of their type.
#[derive(Debug, Clone, Copy, PartialEq, Eq, Structural)]
pub struct Metric {
    pub count_satisfied: u64,
    pub total_tolerated: u64,
    pub exclusive_failed: u64,
    pub min: u64,
    pub max: u64,
    pub sum_squares: u128,
}

impl Metric {
    /// The metric that changes nothing when merged into another.
    pub open spec fn identity() -> Metric {
        Metric {
            count_satisfied: 0,
            total_tolerated: 0,
            exclusive_failed: 0,
            min: u64::MAX,
            max: 0,
            sum_squares: 0,
        }
    }

    /// Both metrics taken together.
    pub open spec fn merged(self, other: Metric) -> Metric {
        Metric {
            count_satisfied: self.count_satisfied.saturating_add(other.count_satisfied),
            total_tolerated: self.total_tolerated.saturating_add(other.total_tolerated),
            exclusive_failed: self.exclusive_failed.saturating_add(other.exclusive_failed),
            min: if self.min <= other.min {
                self.min
            } else {
                other.min
            },
            max: if self.max >= other.max {
                self.max
            } else {
                other.max
            },
            sum_squares: self.sum_squares.saturating_add(other.sum_squares),
        }
    }

    /// The metric of one call that took `duration`, `exclusive` of it outside
    /// of anything else that was timed.
    pub open spec fn of_duration(duration: u64, exclusive: u64) -> Metric {
        Metric {
            count_satisfied: 1,
            total_tolerated: duration,
            exclusive_failed: exclusive,
            min: duration,
            max: duration,
            sum_squares: (duration * duration) as u128,
        }
    }

    /// The metric of a plain count.
    pub open spec fn of_count(count: u64) -> Metric {
        Metric {
            count_satisfied: count,
            total_tolerated: 0,
            exclusive_failed: 0,
            min: 0,
            max: 0,
            sum_squares: 0,
        }
    }

    /// Takes two metrics of the same thing together: counts and sums add up,
    /// the smaller minimum and the larger maximum stay.
    pub fn merge(self, other: Metric) -> (both: Metric)
        ensures
            both == self.merged(other),
    {
        Metric {
            count_satisfied: self.count_satisfied.saturating_add(other.count_satisfied),
            total_tolerated: self.total_tolerated.saturating_add(other.total_tolerated),
            exclusive_failed: self.exclusive_failed.saturating_add(other.exclusive_failed),
            min: if self.min <= other.min {
                self.min
            } else {
                other.min
            },
            max: if self.max >= other.max {
                self.max
            } else {
                other.max
            },
            sum_squares: self.sum_squares.saturating_add(other.sum_squares),
        }
    }

    /// The metric of one call of `duration` nanoseconds.
    pub fn from_duration(duration: u64, exclusive: u64) -> (metric: Metric)
        ensures
            metric == Metric::of_duration(duration, exclusive),
    {
        assert(duration * duration <= u128::MAX) by (nonlinear_arith)
            requires
                duration <= u64::MAX,
        ;
        Metric {
            count_satisfied: 1,
            total_tolerated: duration,
            exclusive_failed: exclusive,
            min: duration,
            max: duration,
            sum_squares: (duration as u128) * (duration as u128),
        }
    }

    /// The metric of a count.
    pub fn from_count(count: u64) -> (metric: Metric)
        ensures
            metric == Metric::of_count(count),
    {
        Metric {
            count_satisfied: count,
            total_tolerated: 0,
            exclusive_failed: 0,
            min: 0,
            max: 0,
            sum_squares: 0,
        }
    }

    /// Merging does not depend on the order of the two metrics.
    pub proof fn law_merge_commutative(a: Metric, b: Metric)
        ensures
            a.merged(b) == b.merged(a),
    {
    }

    /// Merging three metrics does not depend on which two are merged first.
    pub proof fn law_merge_associative(a: Metric, b: Metric, c: Metric)
        ensures
            a.merged(b).merged(c) == a.merged(b.merged(c)),
    {
    }

    /// Merging with the identity changes nothing.
    pub proof fn law_merge_identity(a: Metric)
        ensures
            a.merged(Metric::identity()) == a,
            Metric::identity().merged(a) == a,
    {
    }
}

impl Default for Metric {
    fn default() -> (metric: Metric)
        ensures
            metric == Metric::identity(),
    {
        Metric {
            count_satisfied: 0,
            total_tolerated: 0,
            exclusive_failed: 0,
            min: u64::MAX,
            max: 0,
            sum_squares: 0,
        }
    }
}

/// The key of a metric called `name`, measured inside `scope` if there is one.
pub open spec fn key_of(name: Seq<char>, scope: Option<&str>) -> MetricKey {
    MetricKey {
        name,
        scope: match scope {
            Some(s) => Some(s@),
            None => None,
        },
    }
}

/// The key under which a full table counts what it turned away.
pub open spec fn dropped_key() -> MetricKey {
    MetricKey { name: SUPPORTABILITY_DROPPED@, scope: None }
}

/// `table` after `metric` was filed under `key`: merged into what is there, or
/// entered as it is.
pub open spec fn record(table: Map<MetricKey, Metric>, key: MetricKey, metric: Metric) -> Map<
    MetricKey,
    Metric,
> {
    if table.contains_key(key) {
        table.insert(key, table[key].merged(metric))
    } else {
        table.insert(key, metric)
    }
}

/// `table` after a request to add `metric` under `key`. A key that is there
/// is merged into. A new key is entered if it is forced or the table has
/// fewer than `MAX_METRICS` keys; otherwise the metric is turned away and the
/// drop counter goes up by one.
pub open spec fn table_add(
    table: Map<MetricKey, Metric>,
    key: MetricKey,
    metric: Metric,
    forced: bool,
) -> Map<MetricKey, Metric> {
    if table.contains_key(key) || forced || table.dom().len() < MAX_METRICS {
        record(table, key, metric)
    } else {
        record(table, dropped_key(), Metric::of_count(1))
    }
}

/// The number of keys of `table`, not counting the drop counter.
pub open spec fn regular_keys(table: Map<MetricKey, Metric>) -> nat {
    table.dom().remove(dropped_key()).len()
}

/// A request to add a metric to a table.
pub struct MetricOp {
    pub key: MetricKey,
    pub metric: Metric,
    pub forced: bool,
}

/// `table` after the requests `ops`, first to last.
pub open spec fn table_add_all(table: Map<MetricKey, Metric>, ops: Seq<MetricOp>) -> Map<
    MetricKey,
    Metric,
>
    decreases ops.len(),
{
    if ops.len() == 0 {
        table
    } else {
        let op = ops.last();
        table_add(table_add_all(table, ops.drop_last()), op.key, op.metric, op.forced)
    }
}

/// How many of `ops` are forced.
pub open spec fn forced_count(ops: Seq<MetricOp>) -> nat
    decreases ops.len(),
{
    if ops.len() == 0 {
        0
    } else {
        forced_count(ops.drop_last()) + if ops.last().forced {
            1nat
        } else {
            0nat
        }
    }
}

/// One addition changes the number of regular keys by one at most, and only
/// a forced one takes it beyond `MAX_METRICS`.
pub proof fn lemma_add_grows_by_one(
    table: Map<MetricKey, Metric>,
    key: MetricKey,
    metric: Metric,
    forced: bool,
)
    requires
        table.dom().finite(),
    ensures
        table_add(table, key, metric, forced).dom().finite(),
        regular_keys(table_add(table, key, metric, forced)) <= regular_keys(table) + 1,
        !forced ==> regular_keys(table_add(table, key, metric, forced)) <= regular_keys(table)
            || regular_keys(table_add(table, key, metric, forced)) <= MAX_METRICS,
        forced && (table.contains_key(key) || key == dropped_key()) ==> regular_keys(
            table_add(table, key, metric, forced),
        ) == regular_keys(table),
{
}

/// A table within its cap stays within it under every addition but one: a
/// forced addition of a new key, other than the drop counter, to a table that
/// is full.
pub proof fn law_add_keeps_cap(
    table: Map<MetricKey, Metric>,
    key: MetricKey,
    metric: Metric,
    forced: bool,
)
    requires
        table.dom().finite(),
        regular_keys(table) <= MAX_METRICS,
        forced ==> table.contains_key(key) || key == dropped_key() || regular_keys(table)
            < MAX_METRICS,
    ensures
        regular_keys(table_add(table, key, metric, forced)) <= MAX_METRICS,
        table_add(table, key, metric, forced).dom().len() <= MAX_METRICS + 1,
{
    lemma_add_grows_by_one(table, key, metric, forced);
    lemma_regular_keys(table_add(table, key, metric, forced));
}

/// A table has its regular keys and, at most, the drop counter.
pub proof fn lemma_regular_keys(table: Map<MetricKey, Metric>)
    requires
        table.dom().finite(),
    ensures
        regular_keys(table) <= table.dom().len() <= regular_keys(table) + 1,
{
}

/// After any sequence of additions to a table within its cap, the table holds
/// at most `MAX_METRICS` keys, one more for each forced addition, and the drop
/// counter. Without forced additions it never holds more than `MAX_METRICS`
/// keys and the drop counter.
pub proof fn law_table_is_bounded(table: Map<MetricKey, Metric>, ops: Seq<MetricOp>)
    requires
        table.dom().finite(),
        regular_keys(table) <= MAX_METRICS,
    ensures
        table_add_all(table, ops).dom().finite(),
        regular_keys(table_add_all(table, ops)) <= MAX_METRICS + forced_count(ops),
        table_add_all(table, ops).dom().len() <= MAX_METRICS + forced_count(ops) + 1,
    decreases ops.len(),
{
    if ops.len() > 0 {
        let op = ops.last();
        let before = table_add_all(table, ops.drop_last());
        law_table_is_bounded(table, ops.drop_last());
        lemma_add_grows_by_one(before, op.key, op.metric, op.forced);
    }
    lemma_regular_keys(table_add_all(table, ops));
}

/// One entry of a metric table.
pub struct MetricEntry {
    pub id: MetricId,
    pub metric: Metric,
}

impl View for MetricEntry {
    type V = (MetricKey, Metric);

    open spec fn view(&self) -> (MetricKey, Metric) {
        (self.id@, self.metric)
    }
}

/// Whether `id` is the key of `name` and `scope`.
fn is_key(id: &MetricId, name: &str, scope: Option<&str>) -> (same: bool)
    ensures
        same == (id@ == key_of(name@, scope)),
{
    if !str_eq(id.name.as_str(), name) {
        return false;
    }
    match (&id.scope, scope) {
        (Some(a), Some(b)) => str_eq(a.as_str(), b),
        (None, None) => true,
        _ => false,
    }
}

/// The metrics gathered since the last harvest, each under its key.
pub struct MetricTable {
    start: u64,
    entries: Vec<MetricEntry>,
}

impl View for MetricTable {
    type V = Map<MetricKey, Metric>;

    closed spec fn view(&self) -> Map<MetricKey, Metric> {
        as_map(self.records())
    }
}

impl MetricTable {
    /// The entries in the order in which their keys arrived.
    pub closed spec fn records(&self) -> Seq<(MetricKey, Metric)> {
        Seq::new(self.entries@.len(), |i: int| self.entries@[i]@)
    }

    /// The reading of the monotonic clock at which the table was begun.
    pub closed spec fn started(&self) -> u64 {
        self.start
    }

    #[verifier::type_invariant]
    spec fn keys_are_distinct(self) -> bool {
        distinct_keys(self.records())
    }

    /// An empty table, begun at `now` on the monotonic clock.
    pub fn new(now: u64) -> (table: MetricTable)
        ensures
            table@ == Map::<MetricKey, Metric>::empty(),
            table.started() == now,
    {
        let table = MetricTable { start: now, entries: Vec::new() };
        table
    }

    /// The number of keys in the table.
    pub fn len(&self) -> (n: usize)
        ensures
            self@.dom().finite(),
            n == self@.dom().len(),
    {
        proof {
            use_type_invariant(self);
            lemma_as_map_len(self.records());
        }
        self.entries.len()
    }

    /// What the table holds under `name` and `scope`.
    pub fn get(&self, name: &str, scope: Option<&str>) -> (found: Option<Metric>)
        ensures
            found == if self@.contains_key(key_of(name@, scope)) {
                Some(self@[key_of(name@, scope)])
            } else {
                None
            },
    {
        let i = self.find(name, scope);
        if i < self.entries.len() {
            Some(self.entries[i].metric)
        } else {
            None
        }
    }

    /// The index of the entry of `name` and `scope`, or the number of entries.
    fn find(&self, name: &str, scope: Option<&str>) -> (i: usize)
        ensures
            i == position(self.records(), key_of(name@, scope)),
            i <= self.records().len(),
            self.records().len() == self.entries@.len(),
    {
        let ghost key = key_of(name@, scope);
        let mut i: usize = 0;
        while i < self.entries.len()
            invariant
                i <= self.entries@.len(),
                key == key_of(name@, scope),
                forall|j: int| 0 <= j < i ==> (#[trigger] self.records()[j]).0 != key,
            decreases self.entries@.len() - i,
        {
            if is_key(&self.entries[i].id, name, scope) {
                proof {
                    lemma_position_is(self.records(), key, i as int);
                }
                return i;
            }
            i = i + 1;
        }
        proof {
            lemma_position_is(self.records(), key, i as int);
        }
        i
    }

    /// Files `metric` under the key of `name` and `scope`, merging it into
    /// what is there.
    fn file(&mut self, name: &str, scope: Option<&str>, metric: Metric)
        ensures
            final(self)@ == record(old(self)@, key_of(name@, scope), metric),
            final(self).started() == old(self).started(),
    {
        let ghost key = key_of(name@, scope);
        let ghost before = self.records();
        let i = self.find(name, scope);
        proof {
            use_type_invariant(&*self);
        }
        let mut entries: Vec<MetricEntry> = Vec::new();
        std::mem::swap(&mut self.entries, &mut entries);
        let ghost value;
        if i < entries.len() {
            let merged = entries[i].metric.merge(metric);
            let id = entries[i].id.clone();
            entries.set(i, MetricEntry { id, metric: merged });
            proof {
                value = merged;
            }
        } else {
            let id = MetricId {
                name: String::from_str(name),
                scope: match scope {
                    Some(s) => Some(String::from_str(s)),
                    None => None,
                },
            };
            entries.push(MetricEntry { id, metric });
            proof {
                value = metric;
            }
        }
        proof {
            lemma_position(before, key);
            lemma_put(before, key, value);
            let after = Seq::new(entries@.len(), |j: int| entries@[j]@);
            assert(after =~= put(before, key, value));
        }
        self.entries = entries;
    }

    /// Adds a count to the metric of `name` and `scope`.
    pub fn add_count(&mut self, name: &str, scope: Option<&str>, count: u64, forced: bool)
        ensures
            final(self)@ == table_add(
                old(self)@,
                key_of(name@, scope),
                Metric::of_count(count),
                forced,
            ),
            final(self).started() == old(self).started(),
    {
        let metric = Metric::from_count(count);
        self.add(name, scope, metric, forced);
    }

    /// Adds one call of `duration` nanoseconds, `exclusive` of them spent in
    /// the call itself, to the metric of `name` and `scope`.
    pub fn add_duration(
        &mut self,
        name: &str,
        scope: Option<&str>,
        duration: u64,
        exclusive: u64,
        forced: bool,
    )
        ensures
            final(self)@ == table_add(
                old(self)@,
                key_of(name@, scope),
                Metric::of_duration(duration, exclusive),
                forced,
            ),
            final(self).started() == old(self).started(),
    {
        let metric = Metric::from_duration(duration, exclusive);
        self.add(name, scope, metric, forced);
    }

    /// Adds `metric` under `name` and `scope`. A full table takes a new key
    /// only if it is `forced`; what it turns away it counts under
    /// `Supportability/MetricsDropped`.
    pub fn add(&mut self, name: &str, scope: Option<&str>, metric: Metric, forced: bool)
        ensures
            final(self)@ == table_add(old(self)@, key_of(name@, scope), metric, forced),
            final(self).started() == old(self).started(),
    {
        let i = self.find(name, scope);
        let len = self.entries.len();
        proof {
            use_type_invariant(&*self);
            lemma_as_map_len(self.records());
        }
        if i < len || forced || len < MAX_METRICS {
            self.file(name, scope, metric);
        } else {
            self.file(SUPPORTABILITY_DROPPED, None, Metric::from_count(1));
        }
    }

    /// Whether `report` is the report of what the table holds, made at `now`
    /// for the session `run_id`: it covers the time since the table was
    /// begun, and lists every key of the table once, with what the table
    /// holds under it.
    pub open spec fn is_reported_as(
        &self,
        report: CollectorPayload,
        run_id: Seq<char>,
        now: Clock,
    ) -> bool {
        &&& report.agent_run_id@ == run_id
        &&& report.end == whole_seconds(now.unix)
        &&& report.start == whole_seconds(
            now.unix.saturating_sub(elapsed(self.started(), now.monotonic)),
        )
        &&& distinct_keys(report.records())
        &&& report.records().len() == self@.dom().len()
        &&& as_map(report.records()) == self@.map_values(|m: Metric| MetricValue::of(m))
    }

    /// The report of what the table holds, for the session `run_id`. The
    /// period runs from the moment the table was begun to `now`.
    pub fn payload(&self, run_id: &AgentRunId, now: Clock) -> (report: CollectorPayload)
        ensures
            self.is_reported_as(report, run_id@, now),
    {
        proof {
            use_type_invariant(self);
            lemma_as_map_len(self.records());
        }
        let duration = duration_between(self.start, now.monotonic);
        let start = now.unix.saturating_sub(duration);
        let mut metrics: Vec<MetricRecord> = Vec::new();
        let mut i: usize = 0;
        while i < self.entries.len()
            invariant
                i <= self.entries@.len(),
                metrics@.len() == i,
                forall|j: int|
                    0 <= j < i ==> (#[trigger] metrics@[j])@ == (
                        self.records()[j].0,
                        MetricValue::of(self.records()[j].1),
                    ),
            decreases self.entries@.len() - i,
        {
            let entry = &self.entries[i];
            metrics.push(
                MetricRecord { id: entry.id.clone(), value: MetricValue::from(entry.metric) },
            );
            i = i + 1;
        }
        let report = CollectorPayload {
            agent_run_id: run_id.clone(),
            start: seconds(start),
            end: seconds(now.unix),
            metrics,
        };
        proof {
            let mine = self.records();
            let theirs = report.records();
            lemma_same_keys(mine, theirs);
            let reported = self@.map_values(|m: Metric| MetricValue::of(m));
            assert forall|k: MetricKey| #[trigger]
                as_map(theirs).dom().contains(k) implies as_map(theirs)[k] == reported[k] by {
                lemma_position(mine, k);
            }
            assert(as_map(theirs) =~= reported);
        }
        report
    }
}

/// Two lists with the same keys at the same places find every key at the same
/// place.
proof fn lemma_same_keys<V, W>(a: Seq<(MetricKey, V)>, b: Seq<(MetricKey, W)>)
    requires
        a.len() == b.len(),
        forall|j: int| 0 <= j < a.len() ==> (#[trigger] b[j]).0 == a[j].0,
    ensures
        forall|k: MetricKey| #[trigger] position(b, k) == position(a, k),
        distinct_keys(a) ==> distinct_keys(b),
{
    assert forall|k: MetricKey| #[trigger] position(b, k) == position(a, k) by {
        lemma_position(a, k);
        lemma_position_is(b, k, position(a, k));
    }
}

} // verus!
