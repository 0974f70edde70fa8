use newrelic_unofficial::apdex::apdex_failing_threshold;
use newrelic_unofficial::apdex::ApdexZone;
use newrelic_unofficial::apdex::ApdexZoneParseError;

#[test]
fn test_apdex_zones() {
    let t = 500_000_000;
    assert_eq!(ApdexZone::calculate(t, 0), ApdexZone::Satisfying);
    assert_eq!(ApdexZone::calculate(t, t - 1), ApdexZone::Satisfying);
    assert_eq!(ApdexZone::calculate(t, t), ApdexZone::Tolerating);
    assert_eq!(ApdexZone::calculate(t, 4 * t - 1), ApdexZone::Tolerating);
    assert_eq!(ApdexZone::calculate(t, 4 * t), ApdexZone::Failing);
    assert_eq!(ApdexZone::calculate(t, u64::MAX), ApdexZone::Failing);
}

#[test]
fn test_apdex_zones_at_the_limits() {
    // With a threshold of nothing, nothing satisfies or is tolerated.
    assert_eq!(ApdexZone::calculate(0, 0), ApdexZone::Failing);
    // Four times the threshold does not fit the type of the duration.
    assert_eq!(
        ApdexZone::calculate(u64::MAX / 2, u64::MAX),
        ApdexZone::Tolerating
    );
    assert_eq!(
        ApdexZone::calculate(u64::MAX, u64::MAX),
        ApdexZone::Tolerating
    );
    assert_eq!(
        ApdexZone::calculate(u64::MAX, u64::MAX - 1),
        ApdexZone::Satisfying
    );
}

#[test]
fn test_apdex_failing_threshold() {
    assert_eq!(apdex_failing_threshold(0), 0);
    assert_eq!(apdex_failing_threshold(500_000_000), 2_000_000_000);
    assert_eq!(apdex_failing_threshold(u64::MAX), 4 * (u64::MAX as u128));
}

#[test]
fn test_apdex_codes() {
    for zone in [
        ApdexZone::Satisfying,
        ApdexZone::Tolerating,
        ApdexZone::Failing,
    ] {
        assert_eq!(ApdexZone::from_str(zone.as_str()), Ok(zone));
    }
    assert_eq!(ApdexZone::Satisfying.as_str(), "S");
    assert_eq!(ApdexZone::Tolerating.as_str(), "T");
    assert_eq!(ApdexZone::Failing.as_str(), "F");
    assert_eq!(ApdexZone::from_str(""), Err(ApdexZoneParseError));
    assert_eq!(ApdexZone::from_str("s"), Err(ApdexZoneParseError));
    assert_eq!(ApdexZone::from_str("ST"), Err(ApdexZoneParseError));
}
