use decay_chain::chain::scan_chain;
use decay_chain::crossing::{crossing_form, rate_sign, CrossingForm, RateSign};
use decay_chain::order::order_key;

fn decay_c1(c1: f64, g: f64, w1: f64) -> f64 {
    c1 * (-g).exp() + w1
}

fn decay_pair(s: (f64, f64), g: f64, w: (f64, f64)) -> (f64, f64) {
    (w.0 + (s.0 + s.1 * g) * (-g).exp(), w.1 + s.1 * (-g).exp())
}

#[test]
fn restart_then_carry_then_restart() {
    let gaps = vec![None, Some(1.0), None];
    let weights = vec![Some(2.0), Some(1.0), None];
    let out = scan_chain(&gaps, &weights, 0.0, &decay_c1);
    assert_eq!(out.len(), 3);
    assert_eq!(out[0], 2.0);
    assert_eq!(out[1], 2.0 * (-1.0f64).exp() + 1.0);
    assert_eq!(out[2], 0.0);
}

#[test]
fn first_event_with_gap_carries_from_zero() {
    let gaps = vec![Some(0.5), Some(0.0)];
    let weights = vec![Some(3.0), None];
    let out = scan_chain(&gaps, &weights, 0.0, &decay_c1);
    assert_eq!(out, vec![3.0, 3.0]);
}

#[test]
fn zero_weights_give_zero_states() {
    let gaps = vec![None, Some(1.0), Some(2.5), None, Some(0.1)];
    let weights = vec![Some((0.0, 0.0)), None, Some((0.0, 0.0)), None, None];
    let out = scan_chain(&gaps, &weights, (0.0, 0.0), &decay_pair);
    assert_eq!(out.len(), 5);
    for s in out {
        assert_eq!(s, (0.0, 0.0));
    }
}

#[test]
fn restart_ignores_prior_state() {
    let gaps = vec![None, Some(1.0), None];
    let weights = vec![Some((5.0, 4.0)), Some((1.0, 1.0)), Some((-0.5, 0.25))];
    let out = scan_chain(&gaps, &weights, (0.0, 0.0), &decay_pair);
    assert_eq!(out[2], (-0.5, 0.25));
    let e = (-1.0f64).exp();
    assert_eq!(out[1], (1.0 + (5.0 + 4.0) * e, 1.0 + 4.0 * e));
}

#[test]
fn single_event_round_trip() {
    let gaps: Vec<Option<f64>> = vec![None];
    let weights = vec![Some((2.0, -1.0))];
    let out = scan_chain(&gaps, &weights, (0.0, 0.0), &decay_pair);
    assert_eq!(out, vec![(2.0, -1.0)]);
    let (c0, c1) = out[0];
    let sign = rate_sign(order_key(c1.to_bits()).unwrap());
    assert_eq!(sign, RateSign::Negative);
    // 2 is already above the threshold 1 at the event itself.
    assert_eq!(crossing_form(c0 < 1.0, sign), CrossingForm::AtStart);
}

#[test]
fn empty_chain_gives_no_states() {
    let gaps: Vec<Option<f64>> = Vec::new();
    let weights: Vec<Option<f64>> = Vec::new();
    assert!(scan_chain(&gaps, &weights, 0.0, &decay_c1).is_empty());
}
