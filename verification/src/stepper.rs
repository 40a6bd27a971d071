//! One step of a trajectory: from the compartment counts at one time index
//! to those at the next.

use crate::error::ConfigError;
use crate::model::event_moves_one;
use crate::model::one_infected;
use crate::model::one_recovered;
use crate::model::single_event;
use crate::model::unchanged;
use crate::model::ModelParams;
use crate::model::Outcome;
use crate::model::SirState;
use crate::random::draw_fault;
use crate::random::draw_outcome;
use crate::random::drawn_outcome;
use crate::random::state_after_draw;
use crate::random::RandomSource;
use crate::weights::event_weights;
use crate::weights::idle_term;
use crate::weights::infection_term;
use crate::weights::recovery_term;
use crate::weights::representable;
use crate::weights::scale;
use crate::weights::weights_of;
use crate::weights::Weights;
use vstd::prelude::*;

verus! {

/// An infection or a recovery would take a count of `state` out of the range
/// of a machine integer.
pub open spec fn at_edge(state: SirState) -> bool {
    !state.admits(Outcome::Infection) || !state.admits(Outcome::Recovery)
}

/// Why `state` cannot be advanced under `params`, if that is so. It depends
/// on the parameters and the state alone, not on what would be drawn.
pub open spec fn step_fault(params: ModelParams, state: SirState) -> Option<ConfigError> {
    if !params.wf() {
        Some(ConfigError::InvalidParameters)
    } else if !representable(params, state) {
        Some(ConfigError::WeightOutOfRange)
    } else if at_edge(state) {
        Some(ConfigError::CountOutOfRange)
    } else if infection_term(params, state) < 0 || recovery_term(params, state) < 0 {
        Some(ConfigError::NegativeWeight)
    } else {
        None
    }
}

/// The state that follows `state` when the source is in state `rng`.
pub open spec fn step_next(params: ModelParams, state: SirState, rng: Seq<u8>) -> SirState {
    state.after(drawn_outcome(weights_of(params, state), rng))
}

/// The state of the source after it has advanced `state`.
pub open spec fn step_rng(params: ModelParams, state: SirState, rng: Seq<u8>) -> Seq<u8> {
    state_after_draw(weights_of(params, state), rng)
}

/// `next` can follow `prev` in one step: they differ by exactly one event,
/// and that event has a positive weight in `prev`.
pub open spec fn follows(params: ModelParams, prev: SirState, next: SirState) -> bool {
    &&& single_event(prev, next)
    &&& unchanged(prev, next) ==> idle_term(params, prev) > 0
    &&& one_infected(prev, next) ==> infection_term(params, prev) > 0
    &&& one_recovered(prev, next) ==> recovery_term(params, prev) > 0
}

/// A step conserves the population, and it takes nobody out of an empty
/// compartment: after a state without a negative count comes another.
pub proof fn step_keeps_counts_sound(params: ModelParams, prev: SirState, next: SirState)
    requires
        follows(params, prev, next),
    ensures
        next.total() == prev.total(),
        prev.non_negative() ==> next.non_negative(),
{
    empty_compartment_stops_event(params, prev);
}

/// With well-formed parameters and weights that can be computed, the only
/// thing that can be wrong with the weights of a step is a negative one: no
/// weight is above the limit of the draw, and where the two events have no
/// weight, the step without an event has all of the scale, which is positive.
pub proof fn step_weights_never_vanish(params: ModelParams, state: SirState)
    requires
        params.wf(),
        representable(params, state),
    ensures
        draw_fault(weights_of(params, state)) == if infection_term(params, state) < 0
            || recovery_term(params, state) < 0 {
            Some(ConfigError::NegativeWeight)
        } else {
            None
        },
{
    scale_is_positive(params);
}

/// The scale of well-formed parameters is positive.
pub proof fn scale_is_positive(params: ModelParams)
    requires
        params.wf(),
    ensures
        scale(params) > 0,
{
    let kd = params.transmission_rate.denom as int;
    let td = params.time_step.denom as int;
    let n = params.population_size as int;
    let gd = params.recovery_rate.denom as int;
    assert(kd * td * n * gd > 0) by (nonlinear_arith)
        requires
            kd > 0,
            td > 0,
            n > 0,
            gd > 0,
    ;
}

/// An infection has weight zero where nobody is susceptible or nobody is
/// infected, and a recovery where nobody is infected.
pub proof fn empty_compartment_stops_event(params: ModelParams, state: SirState)
    ensures
        state.s == 0 || state.i == 0 ==> infection_term(params, state) == 0,
        state.i == 0 ==> recovery_term(params, state) == 0,
{
    let kn = params.transmission_rate.numer as int;
    let kd = params.transmission_rate.denom as int;
    let gn = params.recovery_rate.numer as int;
    let gd = params.recovery_rate.denom as int;
    let tn = params.time_step.numer as int;
    let n = params.population_size as int;
    let s = state.s as int;
    let i = state.i as int;
    assert(s == 0 || i == 0 ==> kn * s * i * tn * gd == 0) by (nonlinear_arith);
    assert(i == 0 ==> gn * i * tn * kd * n == 0) by (nonlinear_arith);
}

/// Advances `state` by one time unit: computes the weights of the three
/// events, draws one of them from `source` and moves one individual as the
/// event says.
///
/// The step fails, without a draw, exactly where `step_fault` names a fault.
/// Where it succeeds the new state differs from the old one by exactly one
/// event, whose weight was positive; the population is the same, and no
/// count has become negative that was not negative before.
pub fn step(state: SirState, params: &ModelParams, source: &mut RandomSource) -> (next: Result<
    SirState,
    ConfigError,
>)
    ensures
        match step_fault(*params, state) {
            Some(fault) => {
                &&& next == Err::<SirState, ConfigError>(fault)
                &&& final(source).state() == old(source).state()
            },
            None => {
                &&& next == Ok::<SirState, ConfigError>(
                    step_next(*params, state, old(source).state()),
                )
                &&& final(source).state() == step_rng(*params, state, old(source).state())
            },
        },
        next matches Ok(after) ==> {
            &&& follows(*params, state, after)
            &&& after.total() == state.total()
            &&& state.non_negative() ==> after.non_negative()
        },
{
    if !params.is_well_formed() {
        return Err(ConfigError::InvalidParameters);
    }
    let weights: Weights = match event_weights(params, state) {
        Some(w) => w,
        None => {
            return Err(ConfigError::WeightOutOfRange);
        },
    };
    if state.s == i64::MIN || state.i == i64::MAX || state.i == i64::MIN || state.r == i64::MAX {
        return Err(ConfigError::CountOutOfRange);
    }
    proof {
        step_weights_never_vanish(*params, state);
        empty_compartment_stops_event(*params, state);
    }
    match draw_outcome(&weights, source) {
        Ok(outcome) => {
            proof {
                event_moves_one(state, outcome);
            }
            match state.apply(outcome) {
                Some(after) => Ok(after),
                None => Err(ConfigError::CountOutOfRange),
            }
        },
        Err(fault) => Err(fault),
    }
}

} // verus!
