//! The coefficient recurrence: a fold over one chain of events.
//!
//! Each event either restarts the chain (its gap to the previous event is
//! missing) or carries the previous state across the gap and adds its own
//! weights. A missing weight counts as the zero state.
use vstd::prelude::*;

verus! {

/// The weight of an event, with a missing weight read as `zero`.
pub open spec fn weight_or<S>(w: Option<S>, zero: S) -> S {
    match w {
        Some(v) => v,
        None => zero,
    }
}

/// The state that event `i` carries forward from: the previous output, or
/// `zero` before the first event.
pub open spec fn carried_from<S>(states: Seq<S>, zero: S, i: int) -> S {
    if i == 0 {
        zero
    } else {
        states[i - 1]
    }
}

/// Event `i` of the chain is folded correctly into `states`.
pub open spec fn step_holds<S, G, F: Fn(S, G, S) -> S>(
    gaps: Seq<Option<G>>,
    weights: Seq<Option<S>>,
    zero: S,
    carry: F,
    states: Seq<S>,
    i: int,
) -> bool {
    match gaps[i] {
        None => states[i] == weight_or(weights[i], zero),
        Some(g) => call_ensures(
            carry,
            (carried_from(states, zero, i), g, weight_or(weights[i], zero)),
            states[i],
        ),
    }
}

/// `states` is the fold of the whole chain: one state per event.
pub open spec fn is_chain_scan<S, G, F: Fn(S, G, S) -> S>(
    gaps: Seq<Option<G>>,
    weights: Seq<Option<S>>,
    zero: S,
    carry: F,
    states: Seq<S>,
) -> bool {
    &&& states.len() == gaps.len()
    &&& weights.len() == gaps.len()
    &&& forall|i: int| 0 <= i < gaps.len() ==> #[trigger] step_holds(gaps, weights, zero, carry, states, i)
}

/// Folds a chain of events into one state per event.
///
/// `gaps[i]` is what separates event `i` from the one before it; `None`
/// restarts the chain, so that the state is the event's weight exactly,
/// whatever came before. Otherwise `carry(previous, gap, weight)` gives the
/// new state, starting from `zero` before the first event.
pub fn scan_chain<S: Copy, G: Copy, F: Fn(S, G, S) -> S>(
    gaps: &Vec<Option<G>>,
    weights: &Vec<Option<S>>,
    zero: S,
    carry: &F,
) -> (states: Vec<S>)
    requires
        gaps.len() == weights.len(),
        forall|s: S, g: G, w: S| call_requires(*carry, (s, g, w)),
    ensures
        is_chain_scan(gaps@, weights@, zero, *carry, states@),
        forall|i: int|
            0 <= i < gaps.len() && #[trigger] gaps[i] is None ==> states[i] == weight_or(
                weights[i],
                zero,
            ),
{
    let n = gaps.len();
    let mut states: Vec<S> = Vec::new();
    let mut state = zero;
    let mut i: usize = 0;
    while i < n
        invariant
            n == gaps.len(),
            n == weights.len(),
            0 <= i <= n,
            states.len() == i,
            state == carried_from(states@, zero, i as int),
            forall|s: S, g: G, w: S| call_requires(*carry, (s, g, w)),
            forall|j: int| 0 <= j < i ==> #[trigger] step_holds(gaps@, weights@, zero, *carry, states@, j),
        decreases n - i,
    {
        let w = match weights[i] {
            Some(v) => v,
            None => zero,
        };
        state = match gaps[i] {
            Some(g) => carry(state, g, w),
            None => w,
        };
        let ghost before = states@;
        states.push(state);
        assert forall|j: int| 0 <= j < i + 1 implies #[trigger] step_holds(gaps@, weights@, zero, *carry, states@, j) by {
            if j < i {
                assert(step_holds(gaps@, weights@, zero, *carry, before, j));
                assert(states@[j] == before[j]);
                if j > 0 {
                    assert(states@[j - 1] == before[j - 1]);
                }
            }
        }
        i = i + 1;
    }
    assert forall|i: int| 0 <= i < gaps.len() && #[trigger] gaps[i] is None implies states[i] == weight_or(weights[i], zero) by {
        assert(step_holds(gaps@, weights@, zero, *carry, states@, i));
    }
    states
}

/// A chain whose weights are all zero (or missing) stays at the zero state
/// at every event, provided that carrying the zero state across any gap with
/// a zero weight gives the zero state again.
pub proof fn lemma_zero_weights_keep_zero<S, G, F: Fn(S, G, S) -> S>(
    gaps: Seq<Option<G>>,
    weights: Seq<Option<S>>,
    zero: S,
    carry: F,
    states: Seq<S>,
)
    requires
        is_chain_scan(gaps, weights, zero, carry, states),
        forall|i: int| 0 <= i < weights.len() ==> weight_or(#[trigger] weights[i], zero) == zero,
        forall|g: G, s: S| call_ensures(carry, (zero, g, zero), s) ==> s == zero,
    ensures
        forall|i: int| 0 <= i < states.len() ==> #[trigger] states[i] == zero,
{
    assert forall|i: int| 0 <= i < states.len() implies #[trigger] states[i] == zero by {
        lemma_prefix_zero(gaps, weights, zero, carry, states, i);
    }
}

proof fn lemma_prefix_zero<S, G, F: Fn(S, G, S) -> S>(
    gaps: Seq<Option<G>>,
    weights: Seq<Option<S>>,
    zero: S,
    carry: F,
    states: Seq<S>,
    i: int,
)
    requires
        is_chain_scan(gaps, weights, zero, carry, states),
        forall|k: int| 0 <= k < weights.len() ==> weight_or(#[trigger] weights[k], zero) == zero,
        forall|g: G, s: S| call_ensures(carry, (zero, g, zero), s) ==> s == zero,
        0 <= i < states.len(),
    ensures
        states[i] == zero,
    decreases i,
{
    if i > 0 {
        lemma_prefix_zero(gaps, weights, zero, carry, states, i - 1);
    }
    assert(step_holds(gaps, weights, zero, carry, states, i));
    assert(weight_or(weights[i], zero) == zero);
}

} // verus!
