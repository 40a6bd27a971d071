use sir_sim::model::ModelParams;
use sir_sim::model::Ratio;
use sir_sim::model::SirState;
use sir_sim::weights::bounded_product;
use sir_sim::weights::event_weights;
use sir_sim::weights::Weights;
use sir_sim::weights::TERM_LIMIT;
use sir_sim::weights::WEIGHT_LIMIT;

fn reference() -> ModelParams {
    ModelParams::reference(Ratio { numer: 9, denom: 10000 })
}

#[test]
fn the_limits_are_powers_of_two() {
    assert_eq!(WEIGHT_LIMIT, 1i128 << 125);
    assert_eq!(TERM_LIMIT, 1i128 << 123);
    assert_eq!(TERM_LIMIT * 4, WEIGHT_LIMIT);
}

#[test]
fn weights_of_the_first_step_of_the_reference_scenario() {
    // On the scale of 10^9 these are the probabilities 0.99937, 0.00045
    // and 0.00018.
    let weights = event_weights(&reference(), SirState { s: 10000, i: 1, r: 0 });
    assert_eq!(
        weights,
        Some(Weights { none: 999_370_000, infection: 450_000, recovery: 180_000 })
    );
}

#[test]
fn probabilities_of_the_first_step_of_the_reference_scenario() {
    let weights = event_weights(&reference(), SirState { s: 10000, i: 1, r: 0 }).unwrap();
    let scale = 1.0e9_f64;
    assert!((weights.infection as f64 / scale - 0.00045).abs() < 1e-12);
    assert!((weights.recovery as f64 / scale - 0.00018).abs() < 1e-12);
    assert!((weights.none as f64 / scale - 0.99937).abs() < 1e-12);
    assert_eq!(weights.none + weights.infection + weights.recovery, 1_000_000_000);
}

#[test]
fn no_infected_means_nothing_can_happen() {
    let weights = event_weights(&reference(), SirState { s: 10000, i: 0, r: 0 });
    assert_eq!(weights, Some(Weights { none: 1_000_000_000, infection: 0, recovery: 0 }));
}

#[test]
fn no_susceptible_means_no_infection() {
    let weights = event_weights(&reference(), SirState { s: 0, i: 40, r: 9960 }).unwrap();
    assert_eq!(weights.infection, 0);
    assert_eq!(weights.recovery, 40 * 180_000);
    assert_eq!(weights.none, 1_000_000_000 - 40 * 180_000);
}

#[test]
fn the_weight_of_no_event_is_clamped_at_zero() {
    // 0.5 * 5000 * 5000 * 0.0009 / 10000 = 1.125, and 0.2 * 5000 * 0.0009 = 0.9.
    let weights = event_weights(&reference(), SirState { s: 5000, i: 5000, r: 0 });
    assert_eq!(
        weights,
        Some(Weights { none: 0, infection: 1_125_000_000, recovery: 900_000_000 })
    );
}

#[test]
fn a_negative_rate_gives_a_negative_weight() {
    let mut params = reference();
    params.transmission_rate = Ratio { numer: -1, denom: 2 };
    let weights = event_weights(&params, SirState { s: 10000, i: 1, r: 0 }).unwrap();
    assert_eq!(weights.infection, -450_000);
    assert_eq!(weights.recovery, 180_000);
    assert_eq!(weights.none, 1_000_000_000 + 450_000 - 180_000);
}

#[test]
fn a_negative_count_gives_a_negative_weight() {
    let weights = event_weights(&reference(), SirState { s: -3, i: 2, r: 0 }).unwrap();
    assert_eq!(weights.infection, -3 * 2 * 9 * 5);
    assert_eq!(weights.recovery, 2 * 9 * 2 * 10000);
}

#[test]
fn weights_beyond_the_limit_are_not_computed() {
    let mut params = reference();
    params.transmission_rate = Ratio { numer: i64::MAX, denom: 1 };
    let state = SirState { s: i64::MAX, i: i64::MAX, r: 0 };
    assert_eq!(event_weights(&params, state), None);
    params = reference();
    params.population_size = u64::MAX;
    params.time_step = Ratio { numer: 1, denom: u64::MAX };
    assert_eq!(event_weights(&params, SirState { s: 1, i: 1, r: 0 }), None);
}

#[test]
fn a_product_with_a_zero_factor_is_zero() {
    assert_eq!(bounded_product(i128::MAX, i128::MAX, 0, i128::MAX, i128::MAX), Some(0));
    assert_eq!(bounded_product(0, 1, 2, 3, 4), Some(0));
    assert_eq!(bounded_product(1, 2, 3, 4, 0), Some(0));
}

#[test]
fn a_product_is_exact_up_to_the_limit() {
    assert_eq!(bounded_product(2, 3, 5, 7, 11), Some(2310));
    assert_eq!(bounded_product(-2, 3, -5, 7, -11), Some(-2310));
    assert_eq!(bounded_product(TERM_LIMIT, 1, 1, 1, 1), Some(TERM_LIMIT));
    assert_eq!(bounded_product(TERM_LIMIT, -1, 1, 1, 1), Some(-TERM_LIMIT));
    assert_eq!(bounded_product(1 << 62, 1 << 61, 1, 1, 1), Some(TERM_LIMIT));
    assert_eq!(bounded_product(TERM_LIMIT + 1, 1, 1, 1, 1), None);
    assert_eq!(bounded_product(-TERM_LIMIT - 1, 1, 1, 1, 1), None);
    assert_eq!(bounded_product(1 << 62, 1 << 62, 1, 1, 1), None);
    assert_eq!(bounded_product(1 << 40, 1 << 40, 1 << 40, 1 << 40, 1), None);
    assert_eq!(bounded_product(i128::MAX, i128::MAX, 1, 1, 1), None);
    assert_eq!(bounded_product(i128::MIN, -1, 1, 1, 1), None);
}
