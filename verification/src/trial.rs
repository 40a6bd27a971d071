//! The mathematical model of one trial: the trajectory that a source in a
//! given state produces, and what holds of every such trajectory.

use crate::error::ConfigError;
use crate::model::event_moves_one;
use crate::model::single_event;
use crate::model::ModelParams;
use crate::model::SirState;
use crate::random::drawn_outcome;
use crate::stepper::follows;
use crate::stepper::step_fault;
use crate::stepper::step_keeps_counts_sound;
use crate::stepper::step_next;
use crate::stepper::step_rng;
use crate::weights::weights_of;
use vstd::prelude::*;

verus! {

/// A trial as far as it has come.
pub struct TrialRun {
    /// The trajectory so far, the initial state first.
    pub points: Seq<SirState>,
    /// The state of the random source after the last draw.
    pub rng: Seq<u8>,
    /// The fault that stopped the trial at the last point, if one did.
    pub fault: Option<ConfigError>,
}

/// The trial after one more step, where no fault has stopped it.
pub open spec fn advance(params: ModelParams, before: TrialRun) -> TrialRun {
    let last = before.points.last();
    match step_fault(params, last) {
        Some(fault) => TrialRun { points: before.points, rng: before.rng, fault: Some(fault) },
        None => TrialRun {
            points: before.points.push(step_next(params, last, before.rng)),
            rng: step_rng(params, last, before.rng),
            fault: None,
        },
    }
}

/// The trial of `steps` steps that starts from the initial state of `params`
/// with the random source in state `rng`. A fault ends it early.
pub open spec fn trial_run(params: ModelParams, rng: Seq<u8>, steps: nat) -> TrialRun
    decreases steps,
{
    if steps == 0 {
        TrialRun { points: seq![params.initial_state()], rng, fault: None }
    } else {
        let before = trial_run(params, rng, (steps - 1) as nat);
        if before.fault is Some {
            before
        } else {
            advance(params, before)
        }
    }
}

/// How far the susceptible count is at the end of a trajectory from where it
/// was at the start.
pub open spec fn net_change(points: Seq<SirState>) -> int {
    let moved = points.first().s - points.last().s;
    if moved < 0 {
        -moved
    } else {
        moved
    }
}

/// A trajectory is kept where its susceptible count moved by at least the
/// threshold.
pub open spec fn meaningful(points: Seq<SirState>, threshold: u64) -> bool {
    net_change(points) >= threshold
}

/// Every two neighbours in `points` differ by exactly one event.
pub open spec fn moves_one_at_a_time(points: Seq<SirState>) -> bool {
    forall|t: int| 0 < t < points.len() ==> single_event(#[trigger] points[t - 1], points[t])
}

/// At every index of `points` but the first, the three counts add up to what
/// they add up to at the index before it.
pub open spec fn conserves_population(points: Seq<SirState>) -> bool {
    forall|t: int|
        0 < t < points.len() ==> (#[trigger] points[t]).s + points[t].i + points[t].r == points[t
            - 1].s + points[t - 1].i + points[t - 1].r
}

/// Every point of `points` but the first can follow the point before it in
/// one step under `params`.
pub open spec fn possible(params: ModelParams, points: Seq<SirState>) -> bool {
    forall|t: int| 0 < t < points.len() ==> follows(params, #[trigger] points[t - 1], points[t])
}

/// No point of `points` has a negative count.
pub open spec fn never_negative(points: Seq<SirState>) -> bool {
    forall|t: int| 0 <= t < points.len() ==> (#[trigger] points[t]).non_negative()
}

/// A trajectory in which every point can follow the one before it advances
/// by single events and conserves the population; and if its first point
/// has no negative count, none of its points has.
pub proof fn possible_trajectory_is_sound(params: ModelParams, points: Seq<SirState>)
    requires
        possible(params, points),
    ensures
        moves_one_at_a_time(points),
        conserves_population(points),
        points.len() > 0 && points[0].non_negative() ==> never_negative(points),
    decreases points.len(),
{
    assert forall|t: int| 0 < t < points.len() implies single_event(
        #[trigger] points[t - 1],
        points[t],
    ) && points[t].total() == points[t - 1].total() by {
        step_keeps_counts_sound(params, points[t - 1], points[t]);
    }
    if points.len() > 1 && points[0].non_negative() {
        let head = points.drop_last();
        let last = points.len() - 1;
        assert forall|t: int| 0 < t < head.len() implies follows(
            params,
            #[trigger] head[t - 1],
            head[t],
        ) by {
            assert(follows(params, points[t - 1], points[t]));
        }
        possible_trajectory_is_sound(params, head);
        step_keeps_counts_sound(params, points[last - 1], points[last]);
        assert forall|t: int| 0 <= t < points.len() implies (#[trigger] points[t]).non_negative(
        ) by {
            if t < last {
                assert(head[t] == points[t]);
            } else {
                assert(head[last - 1] == points[last - 1]);
            }
        }
    }
}

/// The shape of a trial, by induction on its steps.
proof fn trial_run_shape(params: ModelParams, rng: Seq<u8>, steps: nat)
    ensures
        1 <= trial_run(params, rng, steps).points.len() <= steps + 1,
        trial_run(params, rng, steps).fault is None <==> trial_run(params, rng, steps).points.len()
            == steps + 1,
        trial_run(params, rng, steps).points[0] == params.initial_state(),
        moves_one_at_a_time(trial_run(params, rng, steps).points),
        conserves_population(trial_run(params, rng, steps).points),
    decreases steps,
{
    if steps > 0 {
        let before = trial_run(params, rng, (steps - 1) as nat);
        trial_run_shape(params, rng, (steps - 1) as nat);
        let last = before.points.last();
        if before.fault is None && step_fault(params, last) is None {
            let run = trial_run(params, rng, steps);
            event_moves_one(last, drawn_outcome(weights_of(params, last), before.rng));
            assert forall|t: int| 0 < t < run.points.len() implies single_event(
                #[trigger] run.points[t - 1],
                run.points[t],
            ) by {
                if t < before.points.len() {
                    assert(single_event(before.points[t - 1], before.points[t]));
                }
            }
            assert forall|t: int| 0 < t < run.points.len() implies (#[trigger] run.points[t]).s
                + run.points[t].i + run.points[t].r == run.points[t - 1].s + run.points[t - 1].i
                + run.points[t - 1].r by {
                if t < before.points.len() {
                    assert(before.points[t] == run.points[t]);
                }
            }
        }
    }
}

/// A trial that met no fault has one point for the initial state and one for
/// every step; a trial that met one has fewer. Either way the first point is
/// the initial state.
pub proof fn trial_length(params: ModelParams, rng: Seq<u8>, steps: nat)
    ensures
        1 <= trial_run(params, rng, steps).points.len() <= steps + 1,
        trial_run(params, rng, steps).fault is None <==> trial_run(params, rng, steps).points.len()
            == steps + 1,
        trial_run(params, rng, steps).points.first() == params.initial_state(),
{
    trial_run_shape(params, rng, steps);
}

/// The population is conserved: at every time index of every trial the three
/// counts add up to what they added up to at the index before it.
pub proof fn trial_conserves_population(params: ModelParams, rng: Seq<u8>, steps: nat)
    ensures
        conserves_population(trial_run(params, rng, steps).points),
{
    trial_run_shape(params, rng, steps);
}

/// From one time index of a trial to the next exactly one of three things
/// happens: no count changes; the susceptible count falls by one and the
/// infected count rises by one; or the infected count falls by one and the
/// recovered count rises by one.
pub proof fn trial_moves_one_at_a_time(params: ModelParams, rng: Seq<u8>, steps: nat)
    ensures
        moves_one_at_a_time(trial_run(params, rng, steps).points),
{
    trial_run_shape(params, rng, steps);
}

/// A trial is determined by the parameters, the number of steps and the state
/// of the random source: two sources in the same state give the same
/// trajectory, point for point, and are left in the same state.
pub proof fn trial_is_reproducible(
    params: ModelParams,
    first_rng: Seq<u8>,
    second_rng: Seq<u8>,
    steps: nat,
)
    requires
        first_rng == second_rng,
    ensures
        trial_run(params, first_rng, steps).points == trial_run(params, second_rng, steps).points,
        trial_run(params, first_rng, steps).fault == trial_run(params, second_rng, steps).fault,
        trial_run(params, first_rng, steps).rng == trial_run(params, second_rng, steps).rng,
{
}

/// Once a fault has stopped a trial, further steps change nothing.
pub proof fn trial_stays_stopped(params: ModelParams, rng: Seq<u8>, reached: nat, steps: nat)
    requires
        reached <= steps,
        trial_run(params, rng, reached).fault is Some,
    ensures
        trial_run(params, rng, steps) == trial_run(params, rng, reached),
    decreases steps,
{
    if reached < steps {
        trial_stays_stopped(params, rng, reached, (steps - 1) as nat);
    }
}

} // verus!
