//! Latency classification: a response time falls into Green, Yellow or Red
//! according to the configured `(low, mid)` boundaries, with half-open
//! intervals `[0, low)`, `[low, mid)` and `[mid, oo)`.  The class is display
//! policy only; it never decides whether a test passed.

use vstd::prelude::*;

verus! {

/// The latency tier of one response.
#[derive(Clone, Copy, Debug, PartialEq, Eq, Structural)]
pub enum TimeClass {
    Green,
    Yellow,
    Red,
}

/// The class of `response_time` under boundaries `low` and `mid`:
/// `[0, low)` is Green, `[low, mid)` is Yellow, everything at or above `mid`
/// is Red.  A pure function of `(response_time, low, mid)` alone.
pub open spec fn spec_classify(response_time: u128, low: u128, mid: u128) -> TimeClass {
    if response_time < low {
        TimeClass::Green
    } else if response_time < mid {
        TimeClass::Yellow
    } else {
        TimeClass::Red
    }
}

/// Classifies one measured response time.
pub fn classify_response_time(response_time: u128, low: u128, mid: u128) -> (r: TimeClass)
    ensures
        r == spec_classify(response_time, low, mid),
{
    if response_time < low {
        TimeClass::Green
    } else if response_time < mid {
        TimeClass::Yellow
    } else {
        TimeClass::Red
    }
}

/// The boundaries are half-open: one millisecond under `low` is still Green,
/// `low` itself already Yellow, and `mid` itself already Red.  The middle
/// claim needs `low < mid`; when `low == mid` the Yellow interval is empty
/// and `low` classifies Red.
pub proof fn lemma_classification_half_open(low: u128, mid: u128)
    requires
        1 <= low,
        low < mid,
    ensures
        spec_classify((low - 1) as u128, low, mid) == TimeClass::Green,
        spec_classify(low, low, mid) == TimeClass::Yellow,
        spec_classify(mid, low, mid) == TimeClass::Red,
{
}

} // verus!
