use newrelic_unofficial::metric_names::final_name;
use newrelic_unofficial::metric_names::rollup_name;
use newrelic_unofficial::metric_names::total_time_name;
use newrelic_unofficial::metric_names::total_time_rollup_name;

#[test]
fn test_total_time_name() {
    assert_eq!(
        total_time_name("WebTransaction/Go/test", true),
        "WebTransactionTotalTime/Go/test"
    );
    assert_eq!(
        total_time_name("OtherTransaction/Go/test", false),
        "OtherTransactionTotalTime/Go/test"
    );
    assert_eq!(total_time_name("foo", true), "WebTransactionTotalTime/foo");
    assert_eq!(
        total_time_name("foo", false),
        "OtherTransactionTotalTime/foo"
    );
}

#[test]
fn test_total_time_name_edges() {
    assert_eq!(total_time_name("", true), "WebTransactionTotalTime/");
    assert_eq!(total_time_name("/", false), "OtherTransactionTotalTime/");
    assert_eq!(total_time_name("a/", false), "OtherTransactionTotalTime/");
    assert_eq!(total_time_name("/b/c", true), "WebTransactionTotalTime/b/c");
    assert_eq!(total_time_name("é/ü", true), "WebTransactionTotalTime/ü");
}

#[test]
fn test_final_name() {
    assert_eq!(final_name("test", false), "OtherTransaction/Go/test");
    assert_eq!(final_name("/test", true), "WebTransaction/Go/test");
    assert_eq!(final_name("//test", true), "WebTransaction/Go//test");
    assert_eq!(final_name("", false), "OtherTransaction/Go/");
    assert_eq!(final_name("/", false), "OtherTransaction/Go/");
}

#[test]
fn test_rollup_names() {
    assert_eq!(rollup_name(true), "WebTransaction");
    assert_eq!(rollup_name(false), "OtherTransaction/all");
    assert_eq!(total_time_rollup_name(true), "WebTransactionTotalTime");
    assert_eq!(total_time_rollup_name(false), "OtherTransactionTotalTime");
}
