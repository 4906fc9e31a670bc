//! Branch dispatch for the threshold-crossing solver, and the search for the
//! first event of a chain whose crossing lies inside its own span.
//!
//! The local model after an event is `(c0 + c1 * t) * exp(-t)`. When `c0`
//! is already at or above the threshold the crossing is at the event itself;
//! otherwise the sign of `c1` picks the closed form: the principal Lambert W
//! branch for a rising rate term, the secondary branch for a falling one, and
//! a logarithm when the rate term is zero.
use vstd::prelude::*;

verus! {

/// The sign of a real value, as the solvers dispatch on it.
#[derive(Debug, Clone, Copy, PartialEq, Eq, Structural)]
pub enum RateSign {
    Positive,
    Negative,
    Zero,
}

/// Which closed form gives the crossing time.
#[derive(Debug, Clone, Copy, PartialEq, Eq, Structural)]
pub enum CrossingForm {
    /// The curve is already at or above the threshold when the event starts.
    AtStart,
    /// `-W0(-h / c1 * exp(-c0 / c1)) - c0 / c1`.
    PrincipalBranch,
    /// `-W-1(-h / c1 * exp(-c0 / c1)) - c0 / c1`.
    SecondaryBranch,
    /// `ln(c0 / h)`.
    Logarithmic,
}

/// The sign of the value that an order key stands for (see `order`).
pub fn rate_sign(key: i64) -> (r: RateSign)
    ensures
        key > 0 <==> r == RateSign::Positive,
        key < 0 <==> r == RateSign::Negative,
        key == 0 <==> r == RateSign::Zero,
{
    if key > 0 {
        RateSign::Positive
    } else if key < 0 {
        RateSign::Negative
    } else {
        RateSign::Zero
    }
}

/// The closed form that solves for the crossing, given whether the value at
/// the event (`c0`) lies below the threshold and the sign of the rate term.
pub fn crossing_form(below_threshold: bool, sign: RateSign) -> (r: CrossingForm)
    ensures
        !below_threshold ==> r == CrossingForm::AtStart,
        below_threshold && sign == RateSign::Positive ==> r == CrossingForm::PrincipalBranch,
        below_threshold && sign == RateSign::Negative ==> r == CrossingForm::SecondaryBranch,
        below_threshold && sign == RateSign::Zero ==> r == CrossingForm::Logarithmic,
{
    if !below_threshold {
        CrossingForm::AtStart
    } else {
        match sign {
            RateSign::Positive => CrossingForm::PrincipalBranch,
            RateSign::Negative => CrossingForm::SecondaryBranch,
            RateSign::Zero => CrossingForm::Logarithmic,
        }
    }
}

/// Event `i` is the first of `hits` that found a crossing.
pub open spec fn is_first_hit<T>(hits: Seq<Option<T>>, i: int) -> bool {
    &&& 0 <= i < hits.len()
    &&& hits[i] is Some
    &&& forall|j: int| 0 <= j < i ==> #[trigger] hits[j] is None
}

/// The index of the first event whose crossing lies in its span, if any.
///
/// `hits[i]` is the crossing found for event `i`, or `None` where the event
/// has none (or lacks a start or a threshold).
pub fn first_hit<T>(hits: &Vec<Option<T>>) -> (r: Option<usize>)
    ensures
        r is None <==> forall|i: int| 0 <= i < hits.len() ==> #[trigger] hits[i] is None,
        r matches Some(i) ==> is_first_hit(hits@, i as int),
{
    let mut i: usize = 0;
    while i < hits.len()
        invariant
            0 <= i <= hits.len(),
            forall|j: int| 0 <= j < i ==> #[trigger] hits[j] is None,
        decreases hits.len() - i,
    {
        if hits[i].is_some() {
            return Some(i);
        }
        i = i + 1;
    }
    None
}

} // verus!
