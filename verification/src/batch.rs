//! The mathematical model of a batch run: the search for one trajectory that
//! is kept, and the sequence of such searches that fills the trial set.

use crate::error::SearchError;
use crate::error::TrialError;
use crate::model::Compartment;
use crate::model::ModelParams;
use crate::model::SirState;
use crate::trial::conserves_population;
use crate::trial::meaningful;
use crate::trial::moves_one_at_a_time;
use crate::trial::trial_conserves_population;
use crate::trial::trial_length;
use crate::trial::trial_moves_one_at_a_time;
use crate::trial::trial_run;
use crate::trial::TrialRun;
use vstd::prelude::*;

verus! {

/// How the search for a trajectory to keep ended.
pub enum SearchEnd {
    /// This trajectory is kept.
    Kept(Seq<SirState>),
    /// This attempt met a fault.
    Stopped(TrialRun),
    /// No attempt is left.
    GaveUp,
}

/// The end of a search and the state it left the random source in.
pub struct SearchRun {
    pub end: SearchEnd,
    pub rng: Seq<u8>,
}

/// Generates trajectories of `steps` steps, one after the other, until one
/// is meaningful, one meets a fault, or `attempts` of them were discarded.
pub open spec fn search(params: ModelParams, steps: nat, rng: Seq<u8>, attempts: nat) -> SearchRun
    decreases attempts,
{
    if attempts == 0 {
        SearchRun { end: SearchEnd::GaveUp, rng }
    } else {
        let run = trial_run(params, rng, steps);
        if run.fault is Some {
            SearchRun { end: SearchEnd::Stopped(run), rng: run.rng }
        } else if meaningful(run.points, params.rejection_threshold) {
            SearchRun { end: SearchEnd::Kept(run.points), rng: run.rng }
        } else {
            search(params, steps, run.rng, (attempts - 1) as nat)
        }
    }
}

/// A batch as far as it has come.
pub struct BatchRun {
    /// The trajectories kept so far, one for each trial.
    pub kept: Seq<Seq<SirState>>,
    /// The state of the random source after the last draw.
    pub rng: Seq<u8>,
    /// How the search for the next trial failed, if it did.
    pub failure: Option<SearchEnd>,
}

/// The batch after the search for one more trial.
pub open spec fn extend(params: ModelParams, steps: nat, before: BatchRun) -> BatchRun {
    let found = search(params, steps, before.rng, params.max_attempts as nat);
    match found.end {
        SearchEnd::Kept(points) => BatchRun {
            kept: before.kept.push(points),
            rng: found.rng,
            failure: None,
        },
        _ => BatchRun { kept: before.kept, rng: found.rng, failure: Some(found.end) },
    }
}

/// The batch of `trials` trials that starts with the random source in state
/// `rng`. The first search that fails ends it.
pub open spec fn batch(params: ModelParams, steps: nat, rng: Seq<u8>, trials: nat) -> BatchRun
    decreases trials,
{
    if trials == 0 {
        BatchRun { kept: Seq::empty(), rng, failure: None }
    } else {
        let before = batch(params, steps, rng, (trials - 1) as nat);
        if before.failure is Some {
            before
        } else {
            extend(params, steps, before)
        }
    }
}

/// The error that reports a trial stopped by a fault: the time index and the
/// state of its last point, and the fault.
pub open spec fn trial_error_of(run: TrialRun) -> TrialError {
    TrialError {
        step: (run.points.len() - 1) as usize,
        state: run.points.last(),
        cause: run.fault.unwrap(),
    }
}

/// The error that reports a search that kept nothing.
pub open spec fn search_error_of(end: SearchEnd) -> SearchError {
    match end {
        SearchEnd::Stopped(run) => SearchError::Config(trial_error_of(run)),
        _ => SearchError::RetriesExhausted,
    }
}

/// The counts of one compartment along a trajectory.
pub open spec fn counts_along(points: Seq<SirState>, compartment: Compartment) -> Seq<i64> {
    Seq::new(points.len(), |t: int| points[t].count_of(compartment))
}

/// A trajectory that a search keeps is complete and meaningful: it has one
/// point for the initial state and one for every step, it starts at the
/// initial state, its susceptible count moved by at least the rejection
/// threshold, and its points follow one another by single events.
pub proof fn search_keeps_only_meaningful(
    params: ModelParams,
    steps: nat,
    rng: Seq<u8>,
    attempts: nat,
)
    ensures
        search(params, steps, rng, attempts).end matches SearchEnd::Kept(points) ==> {
            &&& points.len() == steps + 1
            &&& points.first() == params.initial_state()
            &&& meaningful(points, params.rejection_threshold)
            &&& moves_one_at_a_time(points)
            &&& conserves_population(points)
        },
        search(params, steps, rng, attempts).end matches SearchEnd::Stopped(run) ==> {
            &&& run.fault is Some
            &&& 1 <= run.points.len() <= steps
        },
        attempts == 0 ==> search(params, steps, rng, attempts).end is GaveUp,
    decreases attempts,
{
    if attempts > 0 {
        let run = trial_run(params, rng, steps);
        trial_length(params, rng, steps);
        trial_moves_one_at_a_time(params, rng, steps);
        trial_conserves_population(params, rng, steps);
        search_keeps_only_meaningful(params, steps, run.rng, (attempts - 1) as nat);
    }
}

/// A batch has at most one kept trajectory for each trial, and exactly one
/// for each where no search failed. Every kept trajectory has one point for
/// the initial state and one for every step, starts at the initial state,
/// moved its susceptible count by at least the rejection threshold, and
/// advances by single events that conserve the population.
pub proof fn batch_keeps_only_meaningful(params: ModelParams, steps: nat, rng: Seq<u8>, trials: nat)
    ensures
        batch(params, steps, rng, trials).kept.len() <= trials,
        batch(params, steps, rng, trials).failure is None <==> batch(
            params,
            steps,
            rng,
            trials,
        ).kept.len() == trials,
        batch(params, steps, rng, trials).failure matches Some(end) ==> !(end is Kept),
        forall|k: int|
            0 <= k < batch(params, steps, rng, trials).kept.len() ==> {
                let points = #[trigger] batch(params, steps, rng, trials).kept[k];
                &&& points.len() == steps + 1
                &&& points.first() == params.initial_state()
                &&& meaningful(points, params.rejection_threshold)
                &&& moves_one_at_a_time(points)
                &&& conserves_population(points)
            },
    decreases trials,
{
    if trials > 0 {
        let before = batch(params, steps, rng, (trials - 1) as nat);
        batch_keeps_only_meaningful(params, steps, rng, (trials - 1) as nat);
        if before.failure is None {
            search_keeps_only_meaningful(params, steps, before.rng, params.max_attempts as nat);
        }
    }
}

/// A batch of no trials keeps nothing, fails at nothing and draws nothing.
pub proof fn empty_batch_draws_nothing(params: ModelParams, steps: nat, rng: Seq<u8>)
    ensures
        batch(params, steps, rng, 0).kept.len() == 0,
        batch(params, steps, rng, 0).failure is None,
        batch(params, steps, rng, 0).rng == rng,
{
}

/// Once a search has failed, further trials change nothing.
pub proof fn batch_stays_stopped(
    params: ModelParams,
    steps: nat,
    rng: Seq<u8>,
    reached: nat,
    trials: nat,
)
    requires
        reached <= trials,
        batch(params, steps, rng, reached).failure is Some,
    ensures
        batch(params, steps, rng, trials) == batch(params, steps, rng, reached),
    decreases trials,
{
    if reached < trials {
        batch_stays_stopped(params, steps, rng, reached, (trials - 1) as nat);
    }
}

} // verus!
