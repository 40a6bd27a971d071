//! The random source and the weighted draw of one event.
//!
//! The draw itself is the `rand` crate's: a `WeightedIndex` over the three
//! weights, sampled from a `StdRng`. What is stated of them here is taken on
//! trust; everything else in this file is proved from it.

use crate::error::ConfigError;
use crate::model::Outcome;
use crate::weights::Weights;
use crate::weights::WEIGHT_LIMIT;
use rand::distributions::Distribution;
use rand::distributions::WeightedError;
use rand::distributions::WeightedIndex;
use rand::rngs::StdRng;
use rand::SeedableRng;
use vstd::prelude::*;

verus! {

/// `rand::rngs::StdRng`, a pseudo-random generator. Its state is opaque here.
#[verifier::external_type_specification]
#[verifier::external_body]
pub struct ExStdRng(StdRng);

/// A `rand::distributions::WeightedIndex` over signed 128-bit weights. Only
/// `weight_table` makes one, and nothing here looks inside it.
#[verifier::external_body]
pub struct WeightTable {
    index: WeightedIndex<i128>,
}

/// The ways in which `WeightedIndex::new` can fail, variant for variant.
enum TableFault {
    NoItem,
    InvalidWeight,
    AllWeightsZero,
    TooMany,
}

/// The internal state of a generator: its key, its position in the stream
/// and the part of the current block that is not used up yet.
pub uninterp spec fn generator_state(rng: StdRng) -> Seq<u8>;

/// The state of a generator that was just made from a 64-bit seed.
pub uninterp spec fn seeded_state(seed: u64) -> Seq<u8>;

/// The weights that a table was built from, in their order.
pub uninterp spec fn index_weights(table: WeightTable) -> Seq<i128>;

/// The index that a generator in state `state` draws from a table over
/// `weights`, and the state that the draw leaves the generator in.
pub uninterp spec fn sampled(state: Seq<u8>, weights: Seq<i128>) -> (int, Seq<u8>);

/// `StdRng::seed_from_u64`. The generator is a function of the seed alone:
/// the seed is stretched to a key by a fixed recurrence, and the stream starts
/// at its first block. Equal seeds give generators in equal states.
#[verifier::external_body]
fn seeded_generator(seed: u64) -> (rng: StdRng)
    ensures
        generator_state(rng) == seeded_state(seed),
{
    StdRng::seed_from_u64(seed)
}

/// `WeightedIndex::new` on three weights. It fails with `InvalidWeight` if a
/// weight is negative, and with `AllWeightsZero` if none is negative and
/// their sum is zero; else it gives a table over the weights. It adds the
/// weights up without a check for overflow, which the bound on them excludes.
#[verifier::external_body]
fn weight_table(none: i128, infection: i128, recovery: i128) -> (built: Result<
    WeightTable,
    TableFault,
>)
    requires
        none <= WEIGHT_LIMIT,
        infection <= WEIGHT_LIMIT,
        recovery <= WEIGHT_LIMIT,
    ensures
        match built {
            Ok(table) => {
                &&& none >= 0 && infection >= 0 && recovery >= 0
                &&& none + infection + recovery > 0
                &&& index_weights(table) == seq![none, infection, recovery]
            },
            Err(TableFault::InvalidWeight) => none < 0 || infection < 0 || recovery < 0,
            Err(TableFault::AllWeightsZero) => none == 0 && infection == 0 && recovery == 0,
            Err(_) => false,
        },
{
    match WeightedIndex::new(&[none, infection, recovery]) {
        Ok(index) => Ok(WeightTable { index }),
        Err(WeightedError::NoItem) => Err(TableFault::NoItem),
        Err(WeightedError::InvalidWeight) => Err(TableFault::InvalidWeight),
        Err(WeightedError::AllWeightsZero) => Err(TableFault::AllWeightsZero),
        Err(WeightedError::TooMany) => Err(TableFault::TooMany),
    }
}

/// `WeightedIndex::sample`, with a `StdRng` as the source. It takes a number
/// below the sum of the weights from the generator and returns the first
/// index at which the running sum of the weights exceeds that number. So the
/// index is one of the table's and its weight is positive; and both the index
/// and the state that the generator is left in are functions of the
/// generator's state before the draw and of the weights. (`StdRng` is the
/// same generator on every platform: the ChaCha stream cipher with twelve
/// rounds.)
#[verifier::external_body]
fn sample_index(table: &WeightTable, rng: &mut StdRng) -> (drawn: usize)
    ensures
        drawn < index_weights(*table).len(),
        index_weights(*table)[drawn as int] > 0,
        drawn as int == sampled(generator_state(*old(rng)), index_weights(*table)).0,
        generator_state(*final(rng)) == sampled(
            generator_state(*old(rng)),
            index_weights(*table),
        ).1,
{
    table.index.sample(rng)
}

/// A source of pseudo-random draws. Two sources in the same state give the
/// same draws.
pub struct RandomSource {
    rng: StdRng,
}

impl RandomSource {
    /// The state of the generator behind the source.
    pub closed spec fn state(&self) -> Seq<u8> {
        generator_state(self.rng)
    }

    /// A source whose draws are determined by `seed`.
    pub fn from_seed(seed: u64) -> (source: RandomSource)
        ensures
            source.state() == seeded_state(seed),
    {
        RandomSource { rng: seeded_generator(seed) }
    }
}

/// The event that the draw numbers `index`. The draw numbers the events in
/// the order of `Weights::as_seq`; any other number stands for no event.
pub open spec fn outcome_of(index: int) -> Outcome {
    if index == 1 {
        Outcome::Infection
    } else if index == 2 {
        Outcome::Recovery
    } else {
        Outcome::NoEvent
    }
}

/// The event that the draw numbers `index`.
pub fn outcome_for_index(index: usize) -> (outcome: Outcome)
    ensures
        outcome == outcome_of(index as int),
{
    if index == 1 {
        Outcome::Infection
    } else if index == 2 {
        Outcome::Recovery
    } else {
        Outcome::NoEvent
    }
}

/// Why no event can be drawn with these weights, if that is so. A weight
/// above `WEIGHT_LIMIT` is found first, then a negative weight, then the lack
/// of a positive one.
pub open spec fn draw_fault(weights: Weights) -> Option<ConfigError> {
    if weights.none > WEIGHT_LIMIT || weights.infection > WEIGHT_LIMIT || weights.recovery
        > WEIGHT_LIMIT {
        Some(ConfigError::WeightOutOfRange)
    } else if weights.none < 0 || weights.infection < 0 || weights.recovery < 0 {
        Some(ConfigError::NegativeWeight)
    } else if weights.none == 0 && weights.infection == 0 && weights.recovery == 0 {
        Some(ConfigError::NoPositiveWeight)
    } else {
        None
    }
}

/// The event that a source in state `state` draws with these weights.
pub open spec fn drawn_outcome(weights: Weights, state: Seq<u8>) -> Outcome {
    outcome_of(sampled(state, weights.as_seq()).0)
}

/// The state that a source in state `state` is in after it has drawn an
/// event with these weights.
pub open spec fn state_after_draw(weights: Weights, state: Seq<u8>) -> Seq<u8> {
    sampled(state, weights.as_seq()).1
}

/// Draws one of the three events, each with a probability proportional to
/// its weight. Weights that give no distribution are an error and leave the
/// source as it was; in particular three weights of which none is positive
/// are always rejected. An event of weight zero is never drawn.
pub fn draw_outcome(weights: &Weights, source: &mut RandomSource) -> (drawn: Result<
    Outcome,
    ConfigError,
>)
    ensures
        match draw_fault(*weights) {
            Some(fault) => {
                &&& drawn == Err::<Outcome, ConfigError>(fault)
                &&& final(source).state() == old(source).state()
            },
            None => {
                &&& drawn == Ok::<Outcome, ConfigError>(
                    drawn_outcome(*weights, old(source).state()),
                )
                &&& final(source).state() == state_after_draw(*weights, old(source).state())
                &&& weights.of(drawn_outcome(*weights, old(source).state())) > 0
            },
        },
        weights.none <= 0 && weights.infection <= 0 && weights.recovery <= 0 ==> drawn is Err,
{
    if weights.none > WEIGHT_LIMIT || weights.infection > WEIGHT_LIMIT || weights.recovery
        > WEIGHT_LIMIT {
        return Err(ConfigError::WeightOutOfRange);
    }
    match weight_table(weights.none, weights.infection, weights.recovery) {
        Ok(table) => {
            let index: usize = sample_index(&table, &mut source.rng);
            Ok(outcome_for_index(index))
        },
        Err(TableFault::InvalidWeight) => Err(ConfigError::NegativeWeight),
        Err(TableFault::AllWeightsZero) => Err(ConfigError::NoPositiveWeight),
        Err(TableFault::NoItem) => Err(ConfigError::NoPositiveWeight),
        Err(TableFault::TooMany) => Err(ConfigError::WeightOutOfRange),
    }
}

} // verus!
