//! Parameters of a run, compartment counts and the three events of a step.

use vstd::prelude::*;

verus! {

/// The transmission rate of the reference scenario is one half.
pub const REFERENCE_TRANSMISSION_NUMER: i64 = 1;

pub const REFERENCE_TRANSMISSION_DENOM: u64 = 2;

/// The recovery rate of the reference scenario is one fifth.
pub const REFERENCE_RECOVERY_NUMER: i64 = 1;

pub const REFERENCE_RECOVERY_DENOM: u64 = 5;

/// Population of the reference scenario.
pub const REFERENCE_POPULATION: u64 = 10000;

/// Susceptible individuals at the start of the reference scenario.
pub const REFERENCE_SUSCEPTIBLE: i64 = 10000;

/// Infected individuals at the start of the reference scenario.
pub const REFERENCE_INFECTED: i64 = 1;

/// Recovered individuals at the start of the reference scenario.
pub const REFERENCE_RECOVERED: i64 = 0;

/// Least change of the susceptible count over a trajectory that is kept.
pub const REFERENCE_REJECTION_THRESHOLD: u64 = 10;

/// Attempts per trial of the reference scenario: so many that the bound is
/// never reached in practice. A run that does reach it reports the trial that
/// could not be generated.
pub const REFERENCE_MAX_ATTEMPTS: u64 = 0xffff_ffff_ffff_ffff;

/// An exact rational number `numer / denom`.
#[derive(Clone, Copy, Debug, PartialEq, Eq, Structural)]
pub struct Ratio {
    pub numer: i64,
    pub denom: u64,
}

impl Ratio {
    /// A ratio is well formed when its denominator is positive.
    pub open spec fn wf(self) -> bool {
        self.denom > 0
    }

    /// The ratio `numer / denom`, or `None` when `denom` is zero.
    pub fn new(numer: i64, denom: u64) -> (ratio: Option<Ratio>)
        ensures
            ratio == if denom == 0 {
                None
            } else {
                Some(Ratio { numer, denom })
            },
    {
        if denom == 0 {
            None
        } else {
            Some(Ratio { numer, denom })
        }
    }
}

/// The parameters of a run. They are fixed when a generator is built.
#[derive(Clone, Copy, Debug, PartialEq, Eq, Structural)]
pub struct ModelParams {
    /// Infection rate coefficient per contact.
    pub transmission_rate: Ratio,
    /// Recovery rate per infected individual.
    pub recovery_rate: Ratio,
    /// Total population, by which the contact probability is normalised.
    pub population_size: u64,
    pub initial_susceptible: i64,
    pub initial_infected: i64,
    pub initial_recovered: i64,
    /// Length of one discrete time unit.
    pub time_step: Ratio,
    /// A trajectory is kept only if its susceptible count moved by at least
    /// this much between its first and its last point.
    pub rejection_threshold: u64,
    /// How many trajectories are generated for one trial before the run
    /// gives up on it.
    pub max_attempts: u64,
}

impl ModelParams {
    /// The three ratios have positive denominators and the population is
    /// not empty.
    pub open spec fn wf(self) -> bool {
        &&& self.transmission_rate.wf()
        &&& self.recovery_rate.wf()
        &&& self.time_step.wf()
        &&& self.population_size > 0
    }

    /// The compartment counts at time zero.
    pub open spec fn initial_state(self) -> SirState {
        SirState {
            s: self.initial_susceptible,
            i: self.initial_infected,
            r: self.initial_recovered,
        }
    }

    /// The parameters of the reference scenario with the given time step.
    pub open spec fn reference_spec(time_step: Ratio) -> ModelParams {
        ModelParams {
            transmission_rate: Ratio {
                numer: REFERENCE_TRANSMISSION_NUMER,
                denom: REFERENCE_TRANSMISSION_DENOM,
            },
            recovery_rate: Ratio {
                numer: REFERENCE_RECOVERY_NUMER,
                denom: REFERENCE_RECOVERY_DENOM,
            },
            population_size: REFERENCE_POPULATION,
            initial_susceptible: REFERENCE_SUSCEPTIBLE,
            initial_infected: REFERENCE_INFECTED,
            initial_recovered: REFERENCE_RECOVERED,
            time_step,
            rejection_threshold: REFERENCE_REJECTION_THRESHOLD,
            max_attempts: REFERENCE_MAX_ATTEMPTS,
        }
    }

    /// The parameters of the reference scenario with the given time step.
    pub fn reference(time_step: Ratio) -> (params: ModelParams)
        ensures
            params == Self::reference_spec(time_step),
            time_step.wf() ==> params.wf(),
    {
        ModelParams {
            transmission_rate: Ratio {
                numer: REFERENCE_TRANSMISSION_NUMER,
                denom: REFERENCE_TRANSMISSION_DENOM,
            },
            recovery_rate: Ratio {
                numer: REFERENCE_RECOVERY_NUMER,
                denom: REFERENCE_RECOVERY_DENOM,
            },
            population_size: REFERENCE_POPULATION,
            initial_susceptible: REFERENCE_SUSCEPTIBLE,
            initial_infected: REFERENCE_INFECTED,
            initial_recovered: REFERENCE_RECOVERED,
            time_step,
            rejection_threshold: REFERENCE_REJECTION_THRESHOLD,
            max_attempts: REFERENCE_MAX_ATTEMPTS,
        }
    }

    /// Tells whether the parameters are well formed.
    pub fn is_well_formed(&self) -> (ok: bool)
        ensures
            ok == self.wf(),
    {
        self.transmission_rate.denom > 0 && self.recovery_rate.denom > 0 && self.time_step.denom
            > 0 && self.population_size > 0
    }

    /// The compartment counts at time zero.
    pub fn initial(&self) -> (state: SirState)
        ensures
            state == self.initial_state(),
    {
        SirState {
            s: self.initial_susceptible,
            i: self.initial_infected,
            r: self.initial_recovered,
        }
    }
}

/// What can happen in one time unit.
#[derive(Clone, Copy, Debug, PartialEq, Eq, Structural)]
pub enum Outcome {
    /// No compartment changes.
    NoEvent,
    /// One susceptible individual becomes infected.
    Infection,
    /// One infected individual recovers.
    Recovery,
}

/// The three compartments of the population.
#[derive(Clone, Copy, Debug, PartialEq, Eq, Structural)]
pub enum Compartment {
    Susceptible,
    Infected,
    Recovered,
}

/// The compartment counts at one time index.
#[derive(Clone, Copy, Debug, PartialEq, Eq, Structural)]
pub struct SirState {
    pub s: i64,
    pub i: i64,
    pub r: i64,
}

impl SirState {
    /// The number of individuals in all three compartments.
    pub open spec fn total(self) -> int {
        self.s + self.i + self.r
    }

    /// The count of one compartment.
    pub open spec fn count_of(self, compartment: Compartment) -> i64 {
        match compartment {
            Compartment::Susceptible => self.s,
            Compartment::Infected => self.i,
            Compartment::Recovered => self.r,
        }
    }

    /// The count of one compartment.
    pub fn count(&self, compartment: Compartment) -> (count: i64)
        ensures
            count == self.count_of(compartment),
    {
        match compartment {
            Compartment::Susceptible => self.s,
            Compartment::Infected => self.i,
            Compartment::Recovered => self.r,
        }
    }

    /// No compartment holds a negative count.
    pub open spec fn non_negative(self) -> bool {
        self.s >= 0 && self.i >= 0 && self.r >= 0
    }

    /// The counts after `outcome` are still machine integers.
    pub open spec fn admits(self, outcome: Outcome) -> bool {
        match outcome {
            Outcome::NoEvent => true,
            Outcome::Infection => self.s > i64::MIN && self.i < i64::MAX,
            Outcome::Recovery => self.i > i64::MIN && self.r < i64::MAX,
        }
    }

    /// The counts after `outcome`, where the state admits it.
    pub open spec fn after(self, outcome: Outcome) -> SirState {
        match outcome {
            Outcome::NoEvent => self,
            Outcome::Infection => SirState {
                s: (self.s - 1) as i64,
                i: (self.i + 1) as i64,
                r: self.r,
            },
            Outcome::Recovery => SirState {
                s: self.s,
                i: (self.i - 1) as i64,
                r: (self.r + 1) as i64,
            },
        }
    }

    /// Moves one individual as `outcome` says. `None` only where a count
    /// would leave the range of a machine integer.
    pub fn apply(self, outcome: Outcome) -> (next: Option<SirState>)
        ensures
            next == if self.admits(outcome) {
                Some(self.after(outcome))
            } else {
                None
            },
    {
        match outcome {
            Outcome::NoEvent => Some(self),
            Outcome::Infection => {
                if self.s > i64::MIN && self.i < i64::MAX {
                    Some(SirState { s: self.s - 1, i: self.i + 1, r: self.r })
                } else {
                    None
                }
            },
            Outcome::Recovery => {
                if self.i > i64::MIN && self.r < i64::MAX {
                    Some(SirState { s: self.s, i: self.i - 1, r: self.r + 1 })
                } else {
                    None
                }
            },
        }
    }
}

/// Nothing moved between `prev` and `next`.
pub open spec fn unchanged(prev: SirState, next: SirState) -> bool {
    next.s == prev.s && next.i == prev.i && next.r == prev.r
}

/// One individual moved from susceptible to infected.
pub open spec fn one_infected(prev: SirState, next: SirState) -> bool {
    next.s == prev.s - 1 && next.i == prev.i + 1 && next.r == prev.r
}

/// One individual moved from infected to recovered.
pub open spec fn one_recovered(prev: SirState, next: SirState) -> bool {
    next.s == prev.s && next.i == prev.i - 1 && next.r == prev.r + 1
}

/// `next` follows `prev` by exactly one of the three events.
pub open spec fn single_event(prev: SirState, next: SirState) -> bool {
    ||| unchanged(prev, next) && !one_infected(prev, next) && !one_recovered(prev, next)
    ||| !unchanged(prev, next) && one_infected(prev, next) && !one_recovered(prev, next)
    ||| !unchanged(prev, next) && !one_infected(prev, next) && one_recovered(prev, next)
}

/// Whatever event a state admits, the state after it differs from the state
/// before it by exactly that event, and the population is the same.
pub proof fn event_moves_one(state: SirState, outcome: Outcome)
    requires
        state.admits(outcome),
    ensures
        single_event(state, state.after(outcome)),
        state.after(outcome).total() == state.total(),
        outcome == Outcome::NoEvent <==> unchanged(state, state.after(outcome)),
        outcome == Outcome::Infection <==> one_infected(state, state.after(outcome)),
        outcome == Outcome::Recovery <==> one_recovered(state, state.after(outcome)),
{
}

} // verus!
