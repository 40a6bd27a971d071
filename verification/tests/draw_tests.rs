use sir_sim::error::ConfigError;
use sir_sim::model::ModelParams;
use sir_sim::model::Outcome;
use sir_sim::model::Ratio;
use sir_sim::model::SirState;
use sir_sim::random::draw_outcome;
use sir_sim::random::RandomSource;
use sir_sim::stepper::step;
use sir_sim::weights::event_weights;
use sir_sim::weights::Weights;
use sir_sim::weights::WEIGHT_LIMIT;

fn reference() -> ModelParams {
    ModelParams::reference(Ratio { numer: 9, denom: 10000 })
}

#[test]
fn weights_of_which_none_is_positive_are_rejected() {
    let mut source = RandomSource::from_seed(1);
    let zero = Weights { none: 0, infection: 0, recovery: 0 };
    assert_eq!(draw_outcome(&zero, &mut source), Err(ConfigError::NoPositiveWeight));
    let negative = Weights { none: -1, infection: -2, recovery: -3 };
    assert_eq!(draw_outcome(&negative, &mut source), Err(ConfigError::NegativeWeight));
    let mixed = Weights { none: 0, infection: -1, recovery: 0 };
    assert_eq!(draw_outcome(&mixed, &mut source), Err(ConfigError::NegativeWeight));
}

#[test]
fn one_negative_weight_among_positive_ones_is_rejected() {
    let mut source = RandomSource::from_seed(1);
    for weights in [
        Weights { none: -1, infection: 5, recovery: 5 },
        Weights { none: 5, infection: -1, recovery: 5 },
        Weights { none: 5, infection: 5, recovery: -1 },
        Weights { none: 5, infection: 5, recovery: i128::MIN },
    ] {
        assert_eq!(draw_outcome(&weights, &mut source), Err(ConfigError::NegativeWeight));
    }
}

#[test]
fn a_weight_above_the_limit_is_rejected() {
    let mut source = RandomSource::from_seed(1);
    for weights in [
        Weights { none: WEIGHT_LIMIT + 1, infection: 0, recovery: 0 },
        Weights { none: 0, infection: i128::MAX, recovery: 0 },
        Weights { none: 1, infection: 1, recovery: WEIGHT_LIMIT + 1 },
        Weights { none: -1, infection: 1, recovery: WEIGHT_LIMIT + 1 },
    ] {
        assert_eq!(draw_outcome(&weights, &mut source), Err(ConfigError::WeightOutOfRange));
    }
}

#[test]
fn weights_at_the_limit_are_drawn_from() {
    let mut source = RandomSource::from_seed(5);
    let weights = Weights { none: WEIGHT_LIMIT, infection: WEIGHT_LIMIT, recovery: WEIGHT_LIMIT };
    let mut seen = [false; 3];
    for _ in 0..200 {
        match draw_outcome(&weights, &mut source).unwrap() {
            Outcome::NoEvent => seen[0] = true,
            Outcome::Infection => seen[1] = true,
            Outcome::Recovery => seen[2] = true,
        }
    }
    assert_eq!(seen, [true, true, true]);
}

#[test]
fn the_only_positive_weight_is_always_drawn() {
    let mut source = RandomSource::from_seed(7);
    for _ in 0..500 {
        let only_none = Weights { none: 3, infection: 0, recovery: 0 };
        assert_eq!(draw_outcome(&only_none, &mut source), Ok(Outcome::NoEvent));
        let only_infection = Weights { none: 0, infection: 7, recovery: 0 };
        assert_eq!(draw_outcome(&only_infection, &mut source), Ok(Outcome::Infection));
        let only_recovery = Weights { none: 0, infection: 0, recovery: 1 };
        assert_eq!(draw_outcome(&only_recovery, &mut source), Ok(Outcome::Recovery));
    }
}

#[test]
fn an_event_of_weight_zero_is_never_drawn() {
    let mut source = RandomSource::from_seed(11);
    let weights = Weights { none: 1, infection: 0, recovery: 1 };
    let mut idle = 0;
    let mut recovered = 0;
    for _ in 0..2000 {
        match draw_outcome(&weights, &mut source).unwrap() {
            Outcome::NoEvent => idle += 1,
            Outcome::Infection => panic!("an infection of weight zero was drawn"),
            Outcome::Recovery => recovered += 1,
        }
    }
    assert!(idle > 800 && recovered > 800);
}

#[test]
fn draws_are_in_proportion_to_the_weights() {
    let mut source = RandomSource::from_seed(2024);
    let weights = Weights { none: 5, infection: 3, recovery: 2 };
    let draws = 100_000;
    let mut counts = [0u32; 3];
    for _ in 0..draws {
        match draw_outcome(&weights, &mut source).unwrap() {
            Outcome::NoEvent => counts[0] += 1,
            Outcome::Infection => counts[1] += 1,
            Outcome::Recovery => counts[2] += 1,
        }
    }
    for (count, share) in counts.iter().zip([0.5_f64, 0.3, 0.2]) {
        let frequency = *count as f64 / draws as f64;
        assert!((frequency - share).abs() < 0.01, "{} is far from {}", frequency, share);
    }
}

#[test]
fn first_step_frequencies_converge_to_the_probabilities() {
    let params = reference();
    let state = SirState { s: 10000, i: 1, r: 0 };
    let weights = event_weights(&params, state).unwrap();
    let mut source = RandomSource::from_seed(99);
    let draws: u32 = 400_000;
    let mut infections = 0u32;
    let mut recoveries = 0u32;
    let mut idles = 0u32;
    for _ in 0..draws {
        match draw_outcome(&weights, &mut source).unwrap() {
            Outcome::NoEvent => idles += 1,
            Outcome::Infection => infections += 1,
            Outcome::Recovery => recoveries += 1,
        }
    }
    let n = draws as f64;
    // Five standard deviations of a binomial count on either side.
    let check = |count: u32, p: f64| {
        let expected = n * p;
        let sigma = (n * p * (1.0 - p)).sqrt();
        assert!(
            (count as f64 - expected).abs() < 5.0 * sigma,
            "{} draws where about {} were expected",
            count,
            expected
        );
    };
    check(infections, 0.00045);
    check(recoveries, 0.00018);
    check(idles, 0.99937);
}

#[test]
fn a_single_step_moves_at_most_one_individual() {
    let params = reference();
    let mut source = RandomSource::from_seed(3);
    let state = SirState { s: 5000, i: 5000, r: 0 };
    let mut infections = 0;
    let mut recoveries = 0;
    for _ in 0..1000 {
        let next = step(state, &params, &mut source).unwrap();
        assert_eq!(next.s + next.i + next.r, 10000);
        if next == (SirState { s: 4999, i: 5001, r: 0 }) {
            infections += 1;
        } else if next == (SirState { s: 5000, i: 4999, r: 1 }) {
            recoveries += 1;
        } else {
            panic!("no event has weight zero here, yet the state is {:?}", next);
        }
    }
    // The weights are 1125 to 900.
    assert!(infections > 450 && recoveries > 350);
}

#[test]
fn a_step_without_infected_changes_nothing() {
    let params = reference();
    let mut source = RandomSource::from_seed(3);
    let state = SirState { s: 10000, i: 0, r: 0 };
    for _ in 0..200 {
        assert_eq!(step(state, &params, &mut source), Ok(state));
    }
}

#[test]
fn a_step_with_ill_formed_parameters_fails() {
    let mut source = RandomSource::from_seed(3);
    let state = SirState { s: 10000, i: 1, r: 0 };
    let mut params = reference();
    params.population_size = 0;
    assert_eq!(step(state, &params, &mut source), Err(ConfigError::InvalidParameters));
    params = reference();
    params.time_step = Ratio { numer: 1, denom: 0 };
    assert_eq!(step(state, &params, &mut source), Err(ConfigError::InvalidParameters));
}

#[test]
fn a_step_with_a_negative_rate_fails() {
    let mut source = RandomSource::from_seed(3);
    let state = SirState { s: 10000, i: 1, r: 0 };
    let mut params = reference();
    params.recovery_rate = Ratio { numer: -1, denom: 5 };
    assert_eq!(step(state, &params, &mut source), Err(ConfigError::NegativeWeight));
    params = reference();
    params.time_step = Ratio { numer: -9, denom: 10000 };
    assert_eq!(step(state, &params, &mut source), Err(ConfigError::NegativeWeight));
}

#[test]
fn a_step_with_weights_beyond_the_limit_fails() {
    let mut source = RandomSource::from_seed(3);
    let mut params = reference();
    params.population_size = u64::MAX;
    params.time_step = Ratio { numer: 1, denom: u64::MAX };
    let state = SirState { s: 10000, i: 1, r: 0 };
    assert_eq!(step(state, &params, &mut source), Err(ConfigError::WeightOutOfRange));
}

#[test]
fn a_step_at_the_end_of_the_integer_range_fails() {
    let mut source = RandomSource::from_seed(3);
    let params = reference();
    for state in [
        SirState { s: i64::MIN, i: 0, r: 0 },
        SirState { s: 0, i: 0, r: i64::MAX },
    ] {
        assert_eq!(step(state, &params, &mut source), Err(ConfigError::CountOutOfRange));
    }
}

#[test]
fn a_failed_step_draws_nothing() {
    let params = reference();
    let mut bad = params;
    bad.population_size = 0;
    let state = SirState { s: 5000, i: 5000, r: 0 };
    let mut first = RandomSource::from_seed(17);
    let mut second = RandomSource::from_seed(17);
    assert!(step(state, &bad, &mut first).is_err());
    for _ in 0..50 {
        assert_eq!(step(state, &params, &mut first), step(state, &params, &mut second));
    }
}
