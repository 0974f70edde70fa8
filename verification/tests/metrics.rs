use newrelic_unofficial::clock::Clock;
use newrelic_unofficial::domain_defs::AgentRunId;
use newrelic_unofficial::metrics::Metric;
use newrelic_unofficial::metrics::MetricTable;
use newrelic_unofficial::payloads::metrics::MetricValue;

const SECOND: u64 = 1_000_000_000;

fn metric(numbers: [u64; 5], sum_squares: u128) -> Metric {
    Metric {
        count_satisfied: numbers[0],
        total_tolerated: numbers[1],
        exclusive_failed: numbers[2],
        min: numbers[3],
        max: numbers[4],
        sum_squares,
    }
}

#[test]
fn test_metric_from_duration() {
    assert_eq!(
        Metric::from_duration(3 * SECOND, SECOND),
        metric(
            [1, 3 * SECOND, SECOND, 3 * SECOND, 3 * SECOND],
            9 * (SECOND as u128) * (SECOND as u128)
        )
    );
    assert_eq!(
        Metric::from_duration(u64::MAX, 0).sum_squares,
        (u64::MAX as u128) * (u64::MAX as u128)
    );
}

#[test]
fn test_metric_from_count() {
    assert_eq!(Metric::from_count(7), metric([7, 0, 0, 0, 0], 0));
}

#[test]
fn test_metric_merge() {
    let a = metric([1, 10, 3, 10, 10], 100);
    let b = metric([2, 30, 4, 5, 25], 650);
    let both = metric([3, 40, 7, 5, 25], 750);
    assert_eq!(a.merge(b), both);
    assert_eq!(b.merge(a), both);
    let c = metric([1, 1, 1, 1, 1], 1);
    assert_eq!(a.merge(b).merge(c), a.merge(b.merge(c)));
}

#[test]
fn test_metric_identity() {
    let identity = Metric::default();
    assert_eq!(identity, metric([0, 0, 0, u64::MAX, 0], 0));
    let a = metric([1, 10, 3, 10, 10], 100);
    assert_eq!(a.merge(identity), a);
    assert_eq!(identity.merge(a), a);
}

#[test]
fn test_metric_sums_stop_at_the_top() {
    let big = metric([u64::MAX, u64::MAX - 1, 5, 0, u64::MAX], u128::MAX - 1);
    let more = metric([1, 2, u64::MAX, 0, 0], 2);
    assert_eq!(
        big.merge(more),
        metric([u64::MAX, u64::MAX, u64::MAX, 0, u64::MAX], u128::MAX)
    );
}

#[test]
fn test_table_merges_under_one_key() {
    let mut table = MetricTable::new(0);
    table.add_duration("a", None, 2 * SECOND, SECOND, false);
    table.add_duration("a", None, 4 * SECOND, SECOND, false);
    table.add_duration("a", Some("scope"), SECOND, 0, false);
    table.add_count("a", None, 5, false);
    assert_eq!(table.len(), 2);
    let a = table.get("a", None).unwrap();
    assert_eq!(a.count_satisfied, 7);
    assert_eq!(a.total_tolerated, 6 * SECOND);
    assert_eq!(a.exclusive_failed, 2 * SECOND);
    assert_eq!(a.min, 0);
    assert_eq!(a.max, 4 * SECOND);
    assert_eq!(a.sum_squares, 20 * (SECOND as u128) * (SECOND as u128));
    assert_eq!(
        table.get("a", Some("scope")),
        Some(Metric::from_duration(SECOND, 0))
    );
    assert_eq!(table.get("a", Some("other")), None);
    assert_eq!(table.get("b", None), None);
}

#[test]
fn test_table_cap() {
    let mut table = MetricTable::new(0);
    for i in 0..2000 {
        table.add_count(&format!("metric/{}", i), None, 1, false);
    }
    assert_eq!(table.len(), 2000);
    assert_eq!(table.get("Supportability/MetricsDropped", None), None);
    // A full table turns new keys away and counts them.
    table.add_count("one/too/many", None, 1, false);
    table.add_duration("another", Some("scope"), SECOND, 0, false);
    table.add_count("one/too/many", None, 1, false);
    assert_eq!(table.len(), 2001);
    assert_eq!(table.get("one/too/many", None), None);
    assert_eq!(
        table.get("Supportability/MetricsDropped", None),
        Some(Metric::from_count(3))
    );
    // A key that is there is still merged into.
    table.add_count("metric/7", None, 4, false);
    assert_eq!(table.get("metric/7", None), Some(Metric::from_count(5)));
    assert_eq!(table.len(), 2001);
    // A forced key always finds room.
    table.add_count("forced", None, 1, true);
    assert_eq!(table.get("forced", None), Some(Metric::from_count(1)));
    assert_eq!(table.len(), 2002);
}

#[test]
fn test_table_takes_the_last_free_place() {
    let mut table = MetricTable::new(0);
    for i in 0..1999 {
        table.add_count(&format!("metric/{}", i), None, 1, false);
    }
    table.add_count("last", None, 1, false);
    assert_eq!(table.len(), 2000);
    assert!(table.get("last", None).is_some());
    table.add_count("late", None, 1, false);
    assert!(table.get("late", None).is_none());
}

#[test]
fn test_drop_counter_in_a_full_table() {
    let mut table = MetricTable::new(0);
    for i in 0..2000 {
        table.add_count(&format!("metric/{}", i), None, 1, true);
    }
    // Asked for by name, the counter counts itself as dropped.
    table.add_count("Supportability/MetricsDropped", None, 10, false);
    assert_eq!(
        table.get("Supportability/MetricsDropped", None),
        Some(Metric::from_count(1))
    );
}

#[test]
fn test_table_payload() {
    let mut table = MetricTable::new(10 * SECOND);
    table.add_duration("b", None, 2 * SECOND, SECOND, false);
    table.add_count("a", Some("s"), 3, false);
    let now = Clock {
        monotonic: 70 * SECOND + 5,
        unix: 1_600_000_100 * SECOND + 999_999_999,
    };
    let report = table.payload(&AgentRunId("run".to_owned()), now);
    assert_eq!(report.agent_run_id.0, "run");
    assert_eq!(report.end, 1_600_000_100);
    assert_eq!(report.start, 1_600_000_040);
    assert_eq!(report.metrics.len(), 2);
    assert_eq!(report.metrics[0].id.name, "b");
    assert_eq!(report.metrics[0].id.scope, None);
    assert_eq!(
        report.metrics[0].value,
        MetricValue::from(Metric::from_duration(2 * SECOND, SECOND))
    );
    assert_eq!(report.metrics[1].id.name, "a");
    assert_eq!(report.metrics[1].id.scope.as_deref(), Some("s"));
    assert_eq!(report.metrics[1].value.count_satisfied, 3);
}

#[test]
fn test_table_payload_around_the_epoch() {
    let table = MetricTable::new(100 * SECOND);
    // The table is older than the wall clock says the world is.
    let early = Clock {
        monotonic: 200 * SECOND,
        unix: 50 * SECOND,
    };
    let report = table.payload(&AgentRunId(String::new()), early);
    assert_eq!((report.start, report.end), (0, 50));
    // The monotonic clock is behind the start of the table.
    let behind = Clock {
        monotonic: 0,
        unix: 50 * SECOND,
    };
    let report = table.payload(&AgentRunId(String::new()), behind);
    assert_eq!((report.start, report.end), (50, 50));
    assert!(report.metrics.is_empty());
}

#[test]
fn test_metric_value_from_metric() {
    let value = MetricValue::from(metric([1, 2, 3, 4, 5], 6));
    assert_eq!(
        value,
        MetricValue {
            count_satisfied: 1,
            total_tolerated: 2,
            exclusive_failed: 3,
            min: 4,
            max: 5,
            sum_squares: 6,
        }
    );
}
