//! The weights of the three events of a step, as exact integers.
//!
//! With transmission rate `K`, recovery rate `G`, time step `dt` and
//! population `N`, a state `(S, I, R)` gives the infection the probability
//! `K * S * I * dt / N`, the recovery the probability `G * I * dt`, and the
//! step without an event the rest of one, or zero where the two exceed one.
//! The weights below are these three numbers times the product of all the
//! denominators, which makes them integers and leaves their proportions as
//! they are.

use crate::model::ModelParams;
use crate::model::Outcome;
use crate::model::SirState;
use vstd::prelude::*;

verus! {

/// No weight above this is handed to the weighted draw: the sum of three such
/// weights is still a machine integer.
pub const WEIGHT_LIMIT: i128 = 0x2000_0000_0000_0000_0000_0000_0000_0000;

/// The scale and the infection and recovery terms of a step are computed only
/// up to this magnitude, a quarter of `WEIGHT_LIMIT`.
pub const TERM_LIMIT: i128 = 0x0800_0000_0000_0000_0000_0000_0000_0000;

/// The relative weights of the three events of one step.
#[derive(Clone, Copy, Debug, PartialEq, Eq, Structural)]
pub struct Weights {
    pub none: i128,
    pub infection: i128,
    pub recovery: i128,
}

impl Weights {
    /// The weight of `outcome`.
    pub open spec fn of(self, outcome: Outcome) -> i128 {
        match outcome {
            Outcome::NoEvent => self.none,
            Outcome::Infection => self.infection,
            Outcome::Recovery => self.recovery,
        }
    }

    /// The weights in the order in which the draw numbers the events.
    pub open spec fn as_seq(self) -> Seq<i128> {
        seq![self.none, self.infection, self.recovery]
    }
}

/// `x` is at most `limit` in magnitude.
pub open spec fn within(x: int, limit: int) -> bool {
    -limit <= x <= limit
}

/// The weight that stands for probability one: the product of the
/// denominators of both rates and of the time step, and of the population.
pub open spec fn scale(params: ModelParams) -> int {
    params.transmission_rate.denom * params.time_step.denom * params.population_size
        * params.recovery_rate.denom
}

/// The probability of an infection, times `scale`.
pub open spec fn infection_term(params: ModelParams, state: SirState) -> int {
    params.transmission_rate.numer * state.s * state.i * params.time_step.numer
        * params.recovery_rate.denom
}

/// The probability of a recovery, times `scale`.
pub open spec fn recovery_term(params: ModelParams, state: SirState) -> int {
    params.recovery_rate.numer * state.i * params.time_step.numer * params.transmission_rate.denom
        * params.population_size
}

/// The probability that nothing happens, times `scale`: what the two events
/// leave of probability one, and zero where they leave nothing.
pub open spec fn idle_term(params: ModelParams, state: SirState) -> int {
    let rest = scale(params) - infection_term(params, state) - recovery_term(params, state);
    if rest < 0 {
        0
    } else {
        rest
    }
}

/// The scale and both event terms are small enough to be computed.
pub open spec fn representable(params: ModelParams, state: SirState) -> bool {
    &&& within(scale(params), TERM_LIMIT as int)
    &&& within(infection_term(params, state), TERM_LIMIT as int)
    &&& within(recovery_term(params, state), TERM_LIMIT as int)
}

/// The weights of the three events in `state`.
pub open spec fn weights_of(params: ModelParams, state: SirState) -> Weights {
    Weights {
        none: idle_term(params, state) as i128,
        infection: infection_term(params, state) as i128,
        recovery: recovery_term(params, state) as i128,
    }
}

/// The infection and recovery terms are the probabilities of the model's
/// formulas on the common denominator `scale`: cross-multiplied, the
/// infection term over the scale is `K * S * I * dt / N`, and the recovery
/// term over the scale is `G * I * dt`.
pub proof fn terms_match_formulas(params: ModelParams, state: SirState)
    ensures
        infection_term(params, state) * (params.transmission_rate.denom * params.time_step.denom
            * params.population_size) == (params.transmission_rate.numer * state.s * state.i
            * params.time_step.numer) * scale(params),
        recovery_term(params, state) * (params.recovery_rate.denom * params.time_step.denom)
            == (params.recovery_rate.numer * state.i * params.time_step.numer) * scale(params),
{
    let kn = params.transmission_rate.numer as int;
    let kd = params.transmission_rate.denom as int;
    let gn = params.recovery_rate.numer as int;
    let gd = params.recovery_rate.denom as int;
    let tn = params.time_step.numer as int;
    let td = params.time_step.denom as int;
    let n = params.population_size as int;
    let s = state.s as int;
    let i = state.i as int;
    assert((kn * s * i * tn * gd) * (kd * td * n) == (kn * s * i * tn) * (kd * td * n * gd))
        by (nonlinear_arith);
    assert((gn * i * tn * kd * n) * (gd * td) == (gn * i * tn) * (kd * td * n * gd))
        by (nonlinear_arith);
}

/// A product only grows in magnitude under a factor other than zero.
proof fn factor_keeps_excess(x: int, factor: int, limit: int)
    by (nonlinear_arith)
    requires
        factor != 0,
        limit >= 0,
        !within(x, limit),
    ensures
        !within(x * factor, limit),
{
}

/// `acc * factor`, where that is at most `TERM_LIMIT` in magnitude.
fn limited_mul(acc: i128, factor: i128) -> (product: Option<i128>)
    ensures
        product == if within(acc * factor, TERM_LIMIT as int) {
            Some((acc * factor) as i128)
        } else {
            None
        },
{
    match acc.checked_mul(factor) {
        Some(p) => {
            if -TERM_LIMIT <= p && p <= TERM_LIMIT {
                Some(p)
            } else {
                None
            }
        },
        None => None,
    }
}

/// The product of five factors, where it is at most `TERM_LIMIT` in
/// magnitude. A factor of zero gives zero whatever the others are.
pub fn bounded_product(a: i128, b: i128, c: i128, d: i128, e: i128) -> (product: Option<i128>)
    ensures
        product == if within(a * b * c * d * e, TERM_LIMIT as int) {
            Some((a * b * c * d * e) as i128)
        } else {
            None
        },
{
    if a == 0 || b == 0 || c == 0 || d == 0 || e == 0 {
        assert(a * b * c * d * e == 0) by (nonlinear_arith)
            requires
                a == 0 || b == 0 || c == 0 || d == 0 || e == 0,
        ;
        return Some(0);
    }
    let limit: i128 = TERM_LIMIT;
    let ab: i128 = match limited_mul(a, b) {
        Some(p) => p,
        None => {
            proof {
                factor_keeps_excess(a * b, c as int, limit as int);
                factor_keeps_excess(a * b * c, d as int, limit as int);
                factor_keeps_excess(a * b * c * d, e as int, limit as int);
            }
            return None;
        },
    };
    let abc: i128 = match limited_mul(ab, c) {
        Some(p) => p,
        None => {
            proof {
                factor_keeps_excess(a * b * c, d as int, limit as int);
                factor_keeps_excess(a * b * c * d, e as int, limit as int);
            }
            return None;
        },
    };
    let abcd: i128 = match limited_mul(abc, d) {
        Some(p) => p,
        None => {
            proof {
                factor_keeps_excess(a * b * c * d, e as int, limit as int);
            }
            return None;
        },
    };
    limited_mul(abcd, e)
}

/// The weights of the three events in `state`, or `None` where the scale
/// or a term is beyond `TERM_LIMIT`.
pub fn event_weights(params: &ModelParams, state: SirState) -> (weights: Option<Weights>)
    ensures
        weights == if representable(*params, state) {
            Some(weights_of(*params, state))
        } else {
            None
        },
        weights matches Some(w) ==> w.none <= WEIGHT_LIMIT && w.infection <= WEIGHT_LIMIT
            && w.recovery <= WEIGHT_LIMIT,
{
    let kn: i128 = params.transmission_rate.numer as i128;
    let kd: i128 = params.transmission_rate.denom as i128;
    let gn: i128 = params.recovery_rate.numer as i128;
    let gd: i128 = params.recovery_rate.denom as i128;
    let tn: i128 = params.time_step.numer as i128;
    let td: i128 = params.time_step.denom as i128;
    let n: i128 = params.population_size as i128;
    let s: i128 = state.s as i128;
    let i: i128 = state.i as i128;
    let unit: i128 = match bounded_product(kd, td, n, gd, 1) {
        Some(p) => p,
        None => {
            return None;
        },
    };
    let infection: i128 = match bounded_product(kn, s, i, tn, gd) {
        Some(p) => p,
        None => {
            return None;
        },
    };
    let recovery: i128 = match bounded_product(gn, i, tn, kd, n) {
        Some(p) => p,
        None => {
            return None;
        },
    };
    let rest: i128 = unit - infection - recovery;
    let none: i128 = if rest < 0 {
        0
    } else {
        rest
    };
    Some(Weights { none, infection, recovery })
}

} // verus!
