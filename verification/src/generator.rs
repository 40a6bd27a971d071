//! The trial generator: builds trajectories step by step, discards those in
//! which too little happened, and collects the rest by compartment.

use crate::batch::batch;
use crate::batch::batch_keeps_only_meaningful;
use crate::batch::batch_stays_stopped;
use crate::batch::counts_along;
use crate::batch::search;
use crate::batch::search_error_of;
use crate::batch::trial_error_of;
use crate::batch::BatchRun;
use crate::batch::SearchEnd;
use crate::batch::SearchRun;
use crate::error::GenerateError;
use crate::error::SearchError;
use crate::error::TrialError;
use crate::model::Compartment;
use crate::model::ModelParams;
use crate::model::Ratio;
use crate::model::SirState;
use crate::random::RandomSource;
use crate::render::render_set;
use crate::render::rows_of;
use crate::render::set_text;
use crate::stepper::step;
use crate::trial::conserves_population;
use crate::trial::meaningful;
use crate::trial::moves_one_at_a_time;
use crate::trial::never_negative;
use crate::trial::possible;
use crate::trial::possible_trajectory_is_sound;
use crate::trial::trial_length;
use crate::trial::trial_run;
use crate::trial::trial_stays_stopped;
use crate::trial::TrialRun;
use vstd::prelude::*;

verus! {

/// Generates a batch of trials and holds the trajectories that were kept,
/// one row for each trial in each of the three sets.
pub struct Generator {
    /// The susceptible counts of every trial.
    pub s_set: Vec<Vec<i64>>,
    /// The infected counts of every trial.
    pub i_set: Vec<Vec<i64>>,
    /// The recovered counts of every trial.
    pub r_set: Vec<Vec<i64>>,
    /// The number of trials of a batch.
    pub num_trials: usize,
    /// The number of steps of every trial.
    pub num_steps: usize,
    /// The parameters of the model.
    pub params: ModelParams,
}

/// A row of `len` zeros.
pub open spec fn blank_row(len: nat) -> Seq<i64> {
    Seq::new(len, |t: int| 0i64)
}

/// Every row of `set` is a row of `len` zeros.
pub open spec fn all_blank(set: Seq<Vec<i64>>, len: nat) -> bool {
    forall|k: int| 0 <= k < set.len() ==> (#[trigger] set[k])@ == blank_row(len)
}

/// Tells whether the susceptible count of a trajectory moved by at least
/// `threshold` between its first and its last point. A trajectory without a
/// point has not moved.
pub fn is_meaningful(points: &Vec<SirState>, threshold: u64) -> (kept: bool)
    ensures
        points@.len() > 0 ==> kept == meaningful(points@, threshold),
        points@.len() == 0 ==> !kept,
{
    if points.len() == 0 {
        return false;
    }
    let first: i128 = points[0].s as i128;
    let last: i128 = points[points.len() - 1].s as i128;
    let moved: i128 = if first < last {
        last - first
    } else {
        first - last
    };
    moved >= threshold as i128
}

/// The counts of one compartment along a trajectory.
pub fn compartment_counts(points: &Vec<SirState>, compartment: Compartment) -> (counts: Vec<i64>)
    ensures
        counts@ == counts_along(points@, compartment),
{
    let mut counts: Vec<i64> = Vec::with_capacity(points.len());
    let mut t: usize = 0;
    while t < points.len()
        invariant
            t <= points@.len(),
            counts@ == counts_along(points@.take(t as int), compartment),
        decreases points@.len() - t,
    {
        counts.push(points[t].count(compartment));
        t += 1;
        assert(counts@ =~= counts_along(points@.take(t as int), compartment));
    }
    assert(points@.take(t as int) =~= points@);
    counts
}

/// `rows` rows of `len` zeros each.
fn blank_set(rows: usize, len: usize) -> (set: Vec<Vec<i64>>)
    ensures
        set@.len() == rows,
        all_blank(set@, len as nat),
{
    let mut set: Vec<Vec<i64>> = Vec::new();
    let mut k: usize = 0;
    while k < rows
        invariant
            k <= rows,
            set@.len() == k,
            all_blank(set@, len as nat),
        decreases rows - k,
    {
        let mut row: Vec<i64> = Vec::new();
        let mut t: usize = 0;
        while t < len
            invariant
                t <= len,
                row@ == blank_row(t as nat),
            decreases len - t,
        {
            row.push(0);
            t += 1;
            assert(row@ =~= blank_row(t as nat));
        }
        set.push(row);
        k += 1;
    }
    set
}

impl Generator {
    /// Each of the three sets has one row for each trial.
    pub open spec fn wf(&self) -> bool {
        &&& self.s_set@.len() == self.num_trials
        &&& self.i_set@.len() == self.num_trials
        &&& self.r_set@.len() == self.num_trials
    }

    /// The same numbers of trials and steps and the same parameters.
    pub open spec fn same_setup(&self, other: &Generator) -> bool {
        &&& self.num_trials == other.num_trials
        &&& self.num_steps == other.num_steps
        &&& self.params == other.params
    }

    /// The model's trial for this generator and a source in state `rng`.
    pub open spec fn trial_from(&self, rng: Seq<u8>) -> TrialRun {
        trial_run(self.params, rng, self.num_steps as nat)
    }

    /// The model's search for this generator and a source in state `rng`.
    pub open spec fn search_from(&self, rng: Seq<u8>) -> SearchRun {
        search(self.params, self.num_steps as nat, rng, self.params.max_attempts as nat)
    }

    /// The model's batch for this generator and a source in state `rng`.
    pub open spec fn batch_from(&self, rng: Seq<u8>) -> BatchRun {
        batch(self.params, self.num_steps as nat, rng, self.num_trials as nat)
    }

    /// Row `k` of each set holds the counts along `points`.
    pub open spec fn holds(&self, k: int, points: Seq<SirState>) -> bool {
        &&& self.s_set@[k]@ == counts_along(points, Compartment::Susceptible)
        &&& self.i_set@[k]@ == counts_along(points, Compartment::Infected)
        &&& self.r_set@[k]@ == counts_along(points, Compartment::Recovered)
    }

    /// Row `k` of each set is what it is in `other`.
    pub open spec fn same_row(&self, k: int, other: &Generator) -> bool {
        &&& self.s_set@[k] == other.s_set@[k]
        &&& self.i_set@[k] == other.i_set@[k]
        &&& self.r_set@[k] == other.r_set@[k]
    }

    /// Row `k` of each set has one value for the initial state and one for
    /// every step, and between the first and the last value of the row of
    /// the susceptible set lies at least the rejection threshold.
    pub open spec fn row_complete(&self, k: int) -> bool {
        &&& self.s_set@[k]@.len() == self.num_steps + 1
        &&& self.i_set@[k]@.len() == self.num_steps + 1
        &&& self.r_set@[k]@.len() == self.num_steps + 1
        &&& self.s_set@[k]@.first() - self.s_set@[k]@.last() >= self.params.rejection_threshold
            || self.s_set@[k]@.last() - self.s_set@[k]@.first() >= self.params.rejection_threshold
    }

    /// A generator for `num_trials` trials of `num_steps` steps each, under
    /// the reference scenario with the given time step. The three sets are
    /// laid out at once, with a row of `num_steps` zeros for every trial.
    pub fn new(num_trials: usize, num_steps: usize, time_step: Ratio) -> (generator: Generator)
        ensures
            generator.wf(),
            generator.num_trials == num_trials,
            generator.num_steps == num_steps,
            generator.params == ModelParams::reference_spec(time_step),
            all_blank(generator.s_set@, num_steps as nat),
            all_blank(generator.i_set@, num_steps as nat),
            all_blank(generator.r_set@, num_steps as nat),
    {
        Generator::with_params(num_trials, num_steps, ModelParams::reference(time_step))
    }

    /// A generator for `num_trials` trials of `num_steps` steps each, under
    /// the given parameters. The three sets are laid out at once, with a row
    /// of `num_steps` zeros for every trial.
    pub fn with_params(num_trials: usize, num_steps: usize, params: ModelParams) -> (generator:
        Generator)
        ensures
            generator.wf(),
            generator.num_trials == num_trials,
            generator.num_steps == num_steps,
            generator.params == params,
            all_blank(generator.s_set@, num_steps as nat),
            all_blank(generator.i_set@, num_steps as nat),
            all_blank(generator.r_set@, num_steps as nat),
    {
        Generator {
            s_set: blank_set(num_trials, num_steps),
            i_set: blank_set(num_trials, num_steps),
            r_set: blank_set(num_trials, num_steps),
            num_trials,
            num_steps,
            params,
        }
    }

    /// Generates one trial: starts at the initial state and advances it by
    /// one step after the other, each from the state that the step before it
    /// gave.
    ///
    /// The result is the trial of the model for the state that `source` is
    /// in. Without a fault it is a trajectory of one point for the initial
    /// state and one for every step, whose points follow one another by
    /// single events that conserve the population; if the initial counts are
    /// not negative, no count in it is. A fault stops the trial and is
    /// reported with the time index and the state at which it was met.
    pub fn sir(&self, source: &mut RandomSource) -> (trial: Result<Vec<SirState>, TrialError>)
        ensures
            final(source).state() == self.trial_from(old(source).state()).rng,
            match trial {
                Ok(points) => {
                    &&& self.trial_from(old(source).state()).fault is None
                    &&& points@ == self.trial_from(old(source).state()).points
                    &&& points@.len() == self.num_steps + 1
                    &&& points@[0] == self.params.initial_state()
                    &&& possible(self.params, points@)
                    &&& moves_one_at_a_time(points@)
                    &&& conserves_population(points@)
                    &&& self.params.initial_state().non_negative() ==> never_negative(points@)
                },
                Err(error) => {
                    &&& self.trial_from(old(source).state()).fault is Some
                    &&& error == trial_error_of(self.trial_from(old(source).state()))
                    &&& error.step < self.num_steps
                },
            },
    {
        let ghost start = source.state();
        let mut state: SirState = self.params.initial();
        let mut points: Vec<SirState> = Vec::new();
        points.push(state);
        let mut k: usize = 0;
        while k < self.num_steps
            invariant
                start == old(source).state(),
                k <= self.num_steps,
                points@.len() == k + 1,
                state == points@.last(),
                trial_run(self.params, start, k as nat).points == points@,
                trial_run(self.params, start, k as nat).rng == source.state(),
                trial_run(self.params, start, k as nat).fault is None,
                possible(self.params, points@),
            decreases self.num_steps - k,
        {
            match step(state, &self.params, source) {
                Ok(next) => {
                    points.push(next);
                    state = next;
                },
                Err(cause) => {
                    proof {
                        trial_stays_stopped(
                            self.params,
                            start,
                            (k + 1) as nat,
                            self.num_steps as nat,
                        );
                    }
                    return Err(TrialError { step: k, state, cause });
                },
            }
            k += 1;
        }
        proof {
            trial_length(self.params, start, self.num_steps as nat);
            possible_trajectory_is_sound(self.params, points@);
        }
        Ok(points)
    }

    /// Generates trials until one is meaningful, and returns it. A trial in
    /// which the susceptible count moved by less than the rejection
    /// threshold is discarded whole and a new one is generated from the
    /// initial state, at most `max_attempts` times in all.
    ///
    /// The result is that of the model's search for the state that `source`
    /// is in.
    pub fn accepted_trial(&self, source: &mut RandomSource) -> (found: Result<
        Vec<SirState>,
        SearchError,
    >)
        ensures
            final(source).state() == self.search_from(old(source).state()).rng,
            match found {
                Ok(points) => {
                    &&& self.search_from(old(source).state()).end == SearchEnd::Kept(points@)
                    &&& points@.len() == self.num_steps + 1
                    &&& points@[0] == self.params.initial_state()
                    &&& meaningful(points@, self.params.rejection_threshold)
                    &&& possible(self.params, points@)
                },
                Err(error) => {
                    &&& !(self.search_from(old(source).state()).end is Kept)
                    &&& error == search_error_of(self.search_from(old(source).state()).end)
                },
            },
    {
        let ghost start = source.state();
        let limit: u64 = self.params.max_attempts;
        let mut tries: u64 = 0;
        while tries < limit
            invariant
                start == old(source).state(),
                tries <= limit,
                limit == self.params.max_attempts,
                search(self.params, self.num_steps as nat, start, limit as nat) == search(
                    self.params,
                    self.num_steps as nat,
                    source.state(),
                    (limit - tries) as nat,
                ),
            decreases limit - tries,
        {
            match self.sir(source) {
                Ok(points) => {
                    if is_meaningful(&points, self.params.rejection_threshold) {
                        return Ok(points);
                    }
                },
                Err(error) => {
                    return Err(SearchError::Config(error));
                },
            }
            tries += 1;
        }
        Err(SearchError::RetriesExhausted)
    }

    /// Generates the batch: for every trial in turn, searches for a
    /// meaningful trajectory and stores its susceptible, infected and
    /// recovered counts in the trial's row of the three sets.
    ///
    /// The result is that of the model's batch for the state that `source`
    /// is in. The rows of the trials that were generated hold their
    /// trajectories; where a search failed, the run stops, the error names
    /// the trial, and the rows from that trial on are as they were. After a
    /// run without an error every row has one value for the initial state
    /// and one for every step, and in every row of the susceptible set the
    /// first and the last value differ by at least the rejection threshold.
    pub fn sir_trials(&mut self, source: &mut RandomSource) -> (done: Result<(), GenerateError>)
        requires
            old(self).wf(),
        ensures
            final(self).wf(),
            final(self).same_setup(old(self)),
            final(source).state() == old(self).batch_from(old(source).state()).rng,
            forall|k: int|
                0 <= k < old(self).batch_from(old(source).state()).kept.len() ==> {
                    &&& final(self).holds(
                        k,
                        #[trigger] old(self).batch_from(old(source).state()).kept[k],
                    )
                    &&& possible(
                        old(self).params,
                        old(self).batch_from(old(source).state()).kept[k],
                    )
                },
            forall|k: int|
                old(self).batch_from(old(source).state()).kept.len() <= k < old(self).num_trials
                    ==> #[trigger] final(self).same_row(k, old(self)),
            match done {
                Ok(()) => {
                    &&& old(self).batch_from(old(source).state()).failure is None
                    &&& old(self).batch_from(old(source).state()).kept.len() == old(self).num_trials
                    &&& forall|k: int|
                        0 <= k < old(self).num_trials ==> #[trigger] final(self).row_complete(k)
                },
                Err(error) => {
                    &&& old(self).batch_from(old(source).state()).failure matches Some(end)
                    &&& error.cause == search_error_of(end)
                    &&& error.trial == old(self).batch_from(old(source).state()).kept.len()
                    &&& error.trial < old(self).num_trials
                },
            },
    {
        let ghost start = source.state();
        let ghost model = self.params;
        let ghost steps = self.num_steps as nat;
        let mut trial: usize = 0;
        while trial < self.num_trials
            invariant
                start == old(source).state(),
                trial <= self.num_trials,
                self.wf(),
                self.same_setup(old(self)),
                model == self.params,
                steps == self.num_steps as nat,
                batch(model, steps, start, trial as nat).failure is None,
                batch(model, steps, start, trial as nat).rng == source.state(),
                batch(model, steps, start, trial as nat).kept.len() == trial,
                forall|k: int|
                    0 <= k < trial ==> {
                        &&& self.holds(
                            k,
                            #[trigger] batch(model, steps, start, trial as nat).kept[k],
                        )
                        &&& possible(model, batch(model, steps, start, trial as nat).kept[k])
                    },
                forall|k: int|
                    trial <= k < self.num_trials ==> #[trigger] self.same_row(k, old(self)),
            decreases self.num_trials - trial,
        {
            let ghost before = batch(model, steps, start, trial as nat);
            match self.accepted_trial(source) {
                Ok(points) => {
                    let ghost filled = *self;
                    self.s_set.set(trial, compartment_counts(&points, Compartment::Susceptible));
                    self.i_set.set(trial, compartment_counts(&points, Compartment::Infected));
                    self.r_set.set(trial, compartment_counts(&points, Compartment::Recovered));
                    proof {
                        let after = batch(model, steps, start, (trial + 1) as nat);
                        assert(after.kept == before.kept.push(points@));
                        assert forall|k: int| 0 <= k < trial + 1 implies self.holds(
                            k,
                            #[trigger] after.kept[k],
                        ) && possible(model, after.kept[k]) by {
                            if k < trial {
                                assert(filled.holds(k, before.kept[k]));
                            }
                        }
                        assert forall|k: int| trial + 1 <= k < self.num_trials implies #[trigger]
                            self.same_row(k, old(self)) by {
                            assert(filled.same_row(k, old(self)));
                        }
                    }
                },
                Err(cause) => {
                    proof {
                        batch_stays_stopped(
                            model,
                            steps,
                            start,
                            (trial + 1) as nat,
                            self.num_trials as nat,
                        );
                    }
                    return Err(GenerateError { trial, cause });
                },
            }
            trial += 1;
        }
        proof {
            batch_keeps_only_meaningful(model, steps, start, self.num_trials as nat);
            let run = batch(model, steps, start, self.num_trials as nat);
            assert forall|k: int| 0 <= k < self.num_trials implies #[trigger] self.row_complete(
                k,
            ) by {
                let points = run.kept[k];
                let row = counts_along(points, Compartment::Susceptible);
                assert(self.holds(k, points));
                assert(meaningful(points, model.rejection_threshold));
                assert(row.first() == points.first().s && row.last() == points.last().s);
            }
        }
        Ok(())
    }

    /// The susceptible set as text, ready to be written to a file: one value
    /// on each line, and an empty line between one trial and the next.
    pub fn write_data(&self) -> (text: Vec<u8>)
        ensures
            text@ == set_text(rows_of(self.s_set@)),
    {
        render_set(&self.s_set)
    }
}

} // verus!
