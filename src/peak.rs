//! The extremum finder: where each segment of a chain peaks, which segment
//! holds the largest value, and whether that value breaks a cap.
//!
//! After an event the value follows `(c0 + c1 * t) * exp(-t)`. With a rising
//! rate term the curve has one stationary point, `t = 1 - c0 / c1`; where that
//! point lies in the span it is the peak. Otherwise the peak is at an end of
//! the span: the start or the end of a bounded span, and for an open span the
//! start when `c0` is not negative, else the limit 0 far out at infinity.
use vstd::prelude::*;
use crate::crossing::RateSign;

verus! {

/// What is known of a span's two ends, for a segment without an interior peak.
#[derive(Debug, Clone, Copy, PartialEq, Eq, Structural)]
pub enum SpanEnds {
    /// A span of known length: whether the value at its start is strictly
    /// above the value at its end.
    Bounded { start_above_end: bool },
    /// An open-ended span: whether the value at its start is not negative.
    Open { start_nonneg: bool },
}

/// Where a segment reaches its largest value.
#[derive(Debug, Clone, Copy, PartialEq, Eq, Structural)]
pub enum PeakAt {
    /// At the stationary point `1 - c0 / c1`.
    Stationary,
    /// At the event itself.
    Start,
    /// At the end of a bounded span.
    End,
    /// Far out at infinity, where the value tends to 0.
    Infinity,
}

/// Where a segment peaks, given the sign of its rate term, whether its
/// stationary point lies inside its span, and what its ends show.
pub fn peak_location(sign: RateSign, stationary_in_span: bool, ends: SpanEnds) -> (r: PeakAt)
    ensures
        sign == RateSign::Positive && stationary_in_span ==> r == PeakAt::Stationary,
        !(sign == RateSign::Positive && stationary_in_span) ==> r == match ends {
            SpanEnds::Bounded { start_above_end } => if start_above_end {
                PeakAt::Start
            } else {
                PeakAt::End
            },
            SpanEnds::Open { start_nonneg } => if start_nonneg {
                PeakAt::Start
            } else {
                PeakAt::Infinity
            },
        },
{
    if sign == RateSign::Positive && stationary_in_span {
        PeakAt::Stationary
    } else {
        match ends {
            SpanEnds::Bounded { start_above_end } => if start_above_end {
                PeakAt::Start
            } else {
                PeakAt::End
            },
            SpanEnds::Open { start_nonneg } => if start_nonneg {
                PeakAt::Start
            } else {
                PeakAt::Infinity
            },
        }
    }
}

/// Segment `i` holds the chain's largest value, and no earlier segment holds
/// as large a one. `values[i]` is the order key of segment `i`'s peak value,
/// or `None` where the segment has no start.
pub open spec fn is_chain_peak(values: Seq<Option<i64>>, i: int) -> bool {
    &&& 0 <= i < values.len()
    &&& values[i] is Some
    &&& forall|j: int|
        0 <= j < values.len() && #[trigger] values[j] is Some ==> values[j]->0 <= values[i]->0
    &&& forall|j: int| 0 <= j < i && #[trigger] values[j] is Some ==> values[j]->0 < values[i]->0
}

/// Some segment of the chain has a value strictly above `cap`.
pub open spec fn breaks_cap(values: Seq<Option<i64>>, cap: i64) -> bool {
    exists|i: int| 0 <= i < values.len() && #[trigger] values[i] is Some && values[i]->0 > cap
}

/// The segment holding the chain's largest value; ties go to the first.
pub fn chain_peak(values: &Vec<Option<i64>>) -> (r: Option<usize>)
    ensures
        r is None <==> forall|i: int| 0 <= i < values.len() ==> #[trigger] values[i] is None,
        r matches Some(i) ==> is_chain_peak(values@, i as int),
{
    let mut best: Option<usize> = None;
    let mut best_value: i64 = 0;
    let mut i: usize = 0;
    while i < values.len()
        invariant
            0 <= i <= values.len(),
            best is None <==> forall|j: int| 0 <= j < i ==> #[trigger] values[j] is None,
            best matches Some(b) ==> {
                &&& b < i
                &&& values[b as int] == Some(best_value)
                &&& forall|j: int|
                    0 <= j < i && #[trigger] values[j] is Some ==> values[j]->0 <= best_value
                &&& forall|j: int| 0 <= j < b && #[trigger] values[j] is Some ==> values[j]->0 < best_value
            },
        decreases values.len() - i,
    {
        if let Some(v) = values[i] {
            if best.is_none() || v > best_value {
                best = Some(i);
                best_value = v;
            }
        }
        i = i + 1;
    }
    best
}

/// The segment holding the chain's largest value, reported only when that
/// value is strictly above `cap`.
pub fn cap_violation(values: &Vec<Option<i64>>, cap: i64) -> (r: Option<usize>)
    ensures
        r is None <==> !breaks_cap(values@, cap),
        r matches Some(i) ==> is_chain_peak(values@, i as int) && values[i as int]->0 > cap,
{
    match chain_peak(values) {
        Some(i) => {
            if let Some(v) = values[i] {
                if v > cap {
                    return Some(i);
                }
            }
            None
        },
        None => None,
    }
}

/// The chain's peak is a function of its values alone: two segments that
/// both satisfy `is_chain_peak` are the same segment. So the finder, run
/// again on a chain's values, selects the same segment, time and value.
pub proof fn lemma_chain_peak_unique(values: Seq<Option<i64>>, i: int, j: int)
    requires
        is_chain_peak(values, i),
        is_chain_peak(values, j),
    ensures
        i == j,
{
    if i < j {
        assert(values[i] is Some);
    } else if j < i {
        assert(values[j] is Some);
    }
}

} // verus!
