//! The names under which transactions are reported.

use vstd::prelude::*;
use vstd::string::StrSliceExecFns;
use vstd::string::StringExecFns;
use crate::text::find_char;
use crate::text::first_index;

verus! {

/// Prefix of the metric of a web transaction.
pub const WEB_METRIC_PREFIX: &'static str = "WebTransaction/Go";

/// Prefix of the metric of a background transaction.
pub const BACKGROUND_METRIC_PREFIX: &'static str = "OtherTransaction/Go";

/// Metric that sums up all web transactions.
pub const WEB_ROLLUP: &'static str = "WebTransaction";

/// Metric that sums up all background transactions.
pub const BACKGROUND_ROLLUP: &'static str = "OtherTransaction/all";

/// Total-time metric of web transactions, and prefix of the per-name ones.
pub const TOTAL_TIME_WEB: &'static str = "WebTransactionTotalTime";

/// Total-time metric of background transactions, and prefix of the per-name
/// ones.
pub const TOTAL_TIME_BACKGROUND: &'static str = "OtherTransactionTotalTime";

/// Metric behind the overview graph; made for web transactions only.
pub const DISPATCHER_METRIC: &'static str = "HttpDispatcher";

/// Counts the harvests of this agent instance.
pub const INSTANCE_REPORTING: &'static str = "Instance/Reporting";

/// Counts the metrics that found no room in a full table.
pub const SUPPORTABILITY_DROPPED: &'static str = "Supportability/MetricsDropped";

/// The rollup metric of a kind of transaction.
pub open spec fn rollup(is_web: bool) -> Seq<char> {
    if is_web {
        WEB_ROLLUP@
    } else {
        BACKGROUND_ROLLUP@
    }
}

/// The total-time rollup metric of a kind of transaction.
pub open spec fn total_time_rollup(is_web: bool) -> Seq<char> {
    if is_web {
        TOTAL_TIME_WEB@
    } else {
        TOTAL_TIME_BACKGROUND@
    }
}

/// The prefix of the metric of a kind of transaction.
pub open spec fn metric_prefix(is_web: bool) -> Seq<char> {
    if is_web {
        WEB_METRIC_PREFIX@
    } else {
        BACKGROUND_METRIC_PREFIX@
    }
}

/// What follows the first `/` of `name`; the whole of a name without `/`.
pub open spec fn after_first_segment(name: Seq<char>) -> Seq<char> {
    let i = first_index(name, '/');
    if 0 <= i < name.len() {
        name.skip(i + 1)
    } else {
        name
    }
}

/// `name` without one leading `/`.
pub open spec fn without_leading_slash(name: Seq<char>) -> Seq<char> {
    if name.len() > 0 && name[0] == '/' {
        name.skip(1)
    } else {
        name
    }
}

/// The metric name of a transaction that the application called `name`.
pub open spec fn final_name_of(name: Seq<char>, is_web: bool) -> Seq<char> {
    metric_prefix(is_web) + seq!['/'] + without_leading_slash(name)
}

/// The total-time metric that belongs to the metric `name`.
pub open spec fn total_time_name_of(name: Seq<char>, is_web: bool) -> Seq<char> {
    total_time_rollup(is_web) + seq!['/'] + after_first_segment(name)
}

/// The rollup metric that every transaction of one kind is added to.
pub fn rollup_name(is_web: bool) -> (name: &'static str)
    ensures
        name@ == rollup(is_web),
{
    if is_web {
        WEB_ROLLUP
    } else {
        BACKGROUND_ROLLUP
    }
}

/// The total-time metric for the metric `name`: the first segment of `name`
/// gives way to the total-time prefix.
pub fn total_time_name(name: &str, is_web: bool) -> (total: String)
    ensures
        total@ == total_time_name_of(name@, is_web),
{
    let len = name.unicode_len();
    let rest = match find_char(name, '/') {
        Some(pos) => name.substring_char(pos + 1, len),
        None => name,
    };
    let prefix = if is_web {
        TOTAL_TIME_WEB
    } else {
        TOTAL_TIME_BACKGROUND
    };
    proof {
        reveal_strlit("/");
    }
    let mut total = String::from_str(prefix);
    total.append("/");
    total.append(rest);
    total
}

/// The total-time metric that every transaction of one kind is added to.
pub fn total_time_rollup_name(is_web: bool) -> (name: &'static str)
    ensures
        name@ == total_time_rollup(is_web),
{
    if is_web {
        TOTAL_TIME_WEB
    } else {
        TOTAL_TIME_BACKGROUND
    }
}

/// The metric name of a transaction: the prefix of its kind, then the name
/// the application gave, less one leading `/`.
pub fn final_name(name: &str, is_web: bool) -> (full: String)
    ensures
        full@ == final_name_of(name@, is_web),
{
    let len = name.unicode_len();
    let bare = if len > 0 && name.get_char(0) == '/' {
        name.substring_char(1, len)
    } else {
        name
    };
    let prefix = if is_web {
        WEB_METRIC_PREFIX
    } else {
        BACKGROUND_METRIC_PREFIX
    };
    proof {
        reveal_strlit("/");
    }
    let mut full = String::from_str(prefix);
    full.append("/");
    full.append(bare);
    full
}

} // verus!
