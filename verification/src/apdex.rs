//! Apdex: how a response time compares with the threshold `T` the user is
//! satisfied with.

use vstd::prelude::*;
use crate::text::str_eq;

verus! {

/// The zone a response time falls in.
#[derive(Debug, Clone, Copy, PartialEq, Eq, Hash, Structural)]
pub enum ApdexZone {
    Satisfying,
    Tolerating,
    Failing,
}

/// The text was none of `S`, `T`, `F`.
#[derive(Debug, Clone, Copy, PartialEq, Eq, Structural)]
pub struct ApdexZoneParseError;

/// The zone of `duration` under `threshold`, over the integers.
pub open spec fn zone_of(threshold: int, duration: int) -> ApdexZone {
    if duration < threshold {
        ApdexZone::Satisfying
    } else if duration < 4 * threshold {
        ApdexZone::Tolerating
    } else {
        ApdexZone::Failing
    }
}

/// The response time from which a transaction is failing: four times the
/// threshold. The result is wide enough for every threshold.
pub fn apdex_failing_threshold(threshold: u64) -> (failing: u128)
    ensures
        failing == 4 * threshold,
{
    4 * (threshold as u128)
}

impl ApdexZone {
    /// Classifies `duration` against `threshold`, both in nanoseconds.
    pub fn calculate(threshold: u64, duration: u64) -> (zone: ApdexZone)
        ensures
            zone == zone_of(threshold as int, duration as int),
            zone == ApdexZone::Satisfying <==> duration < threshold,
            zone == ApdexZone::Tolerating <==> threshold <= duration < 4 * threshold,
            zone == ApdexZone::Failing <==> duration >= 4 * threshold,
    {
        if duration < threshold {
            ApdexZone::Satisfying
        } else if (duration as u128) < apdex_failing_threshold(threshold) {
            ApdexZone::Tolerating
        } else {
            ApdexZone::Failing
        }
    }

    /// The one-letter code of the zone on the wire.
    pub open spec fn code(self) -> Seq<char> {
        match self {
            ApdexZone::Satisfying => seq!['S'],
            ApdexZone::Tolerating => seq!['T'],
            ApdexZone::Failing => seq!['F'],
        }
    }

    /// The zone that `s` is the code of.
    pub fn from_str(s: &str) -> (outcome: Result<ApdexZone, ApdexZoneParseError>)
        ensures
            match outcome {
                Ok(zone) => s@ == zone.code(),
                Err(_) => forall|zone: ApdexZone| s@ != #[trigger] zone.code(),
            },
    {
        proof {
            reveal_strlit("S");
            reveal_strlit("T");
            reveal_strlit("F");
        }
        if str_eq(s, "S") {
            Ok(ApdexZone::Satisfying)
        } else if str_eq(s, "T") {
            Ok(ApdexZone::Tolerating)
        } else if str_eq(s, "F") {
            Ok(ApdexZone::Failing)
        } else {
            assert forall|zone: ApdexZone| s@ != #[trigger] zone.code() by {
                assert("S"@ =~= ApdexZone::Satisfying.code());
                assert("T"@ =~= ApdexZone::Tolerating.code());
                assert("F"@ =~= ApdexZone::Failing.code());
            }
            Err(ApdexZoneParseError)
        }
    }

    /// The one-letter code of the zone.
    pub fn as_str(&self) -> (s: &'static str)
        ensures
            s@ == self.code(),
    {
        proof {
            reveal_strlit("S");
            reveal_strlit("T");
            reveal_strlit("F");
        }
        let s = match self {
            ApdexZone::Satisfying => "S",
            ApdexZone::Tolerating => "T",
            ApdexZone::Failing => "F",
        };
        s
    }
}

/// Reading the code of a zone gives the zone back, and no two zones share a
/// code.
pub proof fn law_codes_are_distinct(a: ApdexZone, b: ApdexZone)
    ensures
        a.code() == b.code() <==> a == b,
{
    if a != b && a.code() == b.code() {
        assert(a.code()[0] == b.code()[0]);
    }
}

} // verus!
