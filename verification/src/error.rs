//! What can go wrong in a run.

use crate::model::SirState;
use vstd::prelude::*;

verus! {

/// A misconfiguration that a step found. None of them is recovered from:
/// the run stops at the step that found it.
#[derive(Clone, Copy, Debug, PartialEq, Eq, Structural)]
pub enum ConfigError {
    /// A rate or the time step has a zero denominator, or the population is
    /// empty.
    InvalidParameters,
    /// The scale or a term of the weights is beyond `TERM_LIMIT`, or a weight
    /// handed to the draw is above `WEIGHT_LIMIT`.
    WeightOutOfRange,
    /// An event has a negative weight.
    NegativeWeight,
    /// No event has a positive weight.
    NoPositiveWeight,
    /// A count is so close to the end of the range of a machine integer that
    /// an event could take it out of the range.
    CountOutOfRange,
}

impl ConfigError {
    /// A short description of the error.
    pub open spec fn description(self) -> Seq<char> {
        match self {
            ConfigError::InvalidParameters => "a denominator or the population is zero"@,
            ConfigError::WeightOutOfRange => "an event weight is too large"@,
            ConfigError::NegativeWeight => "an event has a negative weight"@,
            ConfigError::NoPositiveWeight => "no event has a positive weight"@,
            ConfigError::CountOutOfRange => "a count is at the end of the integer range"@,
        }
    }

    /// A short description of the error.
    pub fn message(&self) -> (text: &'static str)
        ensures
            text@ == self.description(),
    {
        match self {
            ConfigError::InvalidParameters => "a denominator or the population is zero",
            ConfigError::WeightOutOfRange => "an event weight is too large",
            ConfigError::NegativeWeight => "an event has a negative weight",
            ConfigError::NoPositiveWeight => "no event has a positive weight",
            ConfigError::CountOutOfRange => "a count is at the end of the integer range",
        }
    }
}

/// A misconfiguration, with the step that found it and the state it was
/// found in.
#[derive(Clone, Copy, Debug, PartialEq, Eq, Structural)]
pub struct TrialError {
    /// The time index of the state that could not be advanced.
    pub step: usize,
    /// The compartment counts at that time index.
    pub state: SirState,
    pub cause: ConfigError,
}

/// Why no trajectory was kept for a trial.
#[derive(Clone, Copy, Debug, PartialEq, Eq, Structural)]
pub enum SearchError {
    /// An attempt met a misconfiguration.
    Config(TrialError),
    /// None of the attempts allowed for one trial gave a trajectory that
    /// could be kept.
    RetriesExhausted,
}

/// Why a batch run stopped before all its trials were generated.
#[derive(Clone, Copy, Debug, PartialEq, Eq, Structural)]
pub struct GenerateError {
    /// The number of the trial that could not be generated. The trials
    /// before it are stored; those from it on are as they were.
    pub trial: usize,
    pub cause: SearchError,
}

} // verus!
