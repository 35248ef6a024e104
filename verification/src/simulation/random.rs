//! Random choices.
//!
//! What a generator gives depends on its state, of which nothing is known
//! here: of each draw only that holds which holds of every outcome.
use super::utils::{Environment, JsonNumError, NumExpression, Number};
use crate::fixed::Real;
use rand::distr::weighted::WeightedIndex;
use rand::distr::Distribution;
use rand::rngs::StdRng;
use rand::Rng;
use vstd::prelude::*;

verus! {

/// The standard generator of the `rand` crate.
#[verifier::external_type_specification]
#[verifier::external_body]
pub struct ExStdRng(StdRng);

/// A distribution over the indices of a list of weights, as the `rand` crate
/// makes it.
#[verifier::external_body]
pub struct IndexDistribution {
    distribution: WeightedIndex<Real>,
}

/// The weights that a distribution over indices was made of.
pub uninterp spec fn index_weights(distribution: IndexDistribution) -> Seq<Real>;

/// Why a list of weights gives no distribution.
#[derive(Clone, Copy, Debug, PartialEq, Eq, Structural)]
pub enum WeightError {
    /// There is no weight.
    InvalidInput,
    /// A weight is negative.
    InvalidWeight,
    /// Every weight is zero.
    InsufficientNonZero,
    /// The sum of the weights is too large.
    Overflow,
}

/// The sum of some weights.
pub open spec fn total_weight(weights: Seq<Real>) -> int
    decreases weights.len(),
{
    if weights.len() == 0 {
        0
    } else {
        total_weight(weights.drop_last()) + weights.last()
    }
}

/// What is wrong with the first weight that has something wrong with it: it
/// is negative, or else the sum of the weights up to it is too large.
pub open spec fn first_fault(weights: Seq<Real>) -> Option<WeightError>
    decreases weights.len(),
{
    if weights.len() == 0 {
        None
    } else {
        match first_fault(weights.drop_last()) {
            Some(fault) => Some(fault),
            None => if weights.last() < 0 {
                Some(WeightError::InvalidWeight)
            } else if total_weight(weights) > i64::MAX {
                Some(WeightError::Overflow)
            } else {
                None
            },
        }
    }
}

/// Why no distribution can be made of the weights, if none can: there is no
/// weight, a weight has something wrong with it, or every weight is zero.
pub open spec fn weights_fault(weights: Seq<Real>) -> Option<WeightError> {
    if weights.len() == 0 {
        Some(WeightError::InvalidInput)
    } else {
        match first_fault(weights) {
            Some(fault) => Some(fault),
            None => if total_weight(weights) == 0 {
                Some(WeightError::InsufficientNonZero)
            } else {
                None
            },
        }
    }
}

/// Whether a distribution can be made of the weights.
pub open spec fn usable_weights(weights: Seq<Real>) -> bool {
    weights_fault(weights) is None
}

/// Usable weights are not negative, and one of them is above zero.
pub proof fn lemma_usable_weights(weights: Seq<Real>)
    requires
        first_fault(weights) is None,
    ensures
        forall|i: int| 0 <= i < weights.len() ==> weights[i] >= 0,
        0 <= total_weight(weights) <= i64::MAX,
        total_weight(weights) > 0 <==> exists|i: int| 0 <= i < weights.len() && weights[i] > 0,
    decreases weights.len(),
{
    if weights.len() > 0 {
        let shorter = weights.drop_last();
        lemma_usable_weights(shorter);
        assert forall|i: int| 0 <= i < weights.len() implies weights[i] >= 0 by {
            if i < shorter.len() {
                assert(shorter[i] == weights[i]);
            }
        }
        if total_weight(weights) > 0 {
            if weights.last() > 0 {
                assert(weights[weights.len() - 1] > 0);
            } else {
                let i = choose|i: int| 0 <= i < shorter.len() && shorter[i] > 0;
                assert(weights[i] > 0);
            }
        }
        if exists|i: int| 0 <= i < weights.len() && weights[i] > 0 {
            let i = choose|i: int| 0 <= i < weights.len() && weights[i] > 0;
            if i < shorter.len() {
                assert(shorter[i] > 0);
            }
        }
    }
}

/// Draws a number from `min` up to, but not including, `max`.
///
/// This is `Rng::random_range` on a half-open range, which panics where the
/// range is empty: the result lies in the range, and nothing else is known of it.
#[verifier::external_body]
fn random_range(rng: &mut StdRng, min: u64, max: u64) -> (r: u64)
    requires
        min < max,
    ensures
        min <= r < max,
{
    rng.random_range(min..max)
}

/// Makes the distribution over the indices of `weights` in which each index
/// is as likely as its weight is large.
///
/// This is `WeightedIndex::new`. It takes the weights in their order. Without
/// a weight it fails with `InvalidInput`. At the first weight that is
/// negative it fails with `InvalidWeight`, and at the first with which the
/// sum becomes too large for a weight with `Overflow`. Where the sum is zero
/// it fails with `InsufficientNonZero`. Else it gives a distribution, which
/// is made of the weights given.
#[verifier::external_body]
pub(crate) fn weighted_index(weights: &Vec<Real>) -> (r: Result<IndexDistribution, WeightError>)
    ensures
        match r {
            Ok(distribution) => weights_fault(weights@) is None && index_weights(distribution)
                == weights@,
            Err(error) => weights_fault(weights@) == Some(error),
        },
{
    match WeightedIndex::new(weights.iter()) {
        Ok(distribution) => Ok(IndexDistribution { distribution }),
        Err(rand::distr::weighted::Error::InvalidInput) => Err(WeightError::InvalidInput),
        Err(rand::distr::weighted::Error::InsufficientNonZero) => Err(
            WeightError::InsufficientNonZero,
        ),
        Err(rand::distr::weighted::Error::Overflow) => Err(WeightError::Overflow),
        Err(_) => Err(WeightError::InvalidWeight),
    }
}

/// Draws an index from a distribution over indices.
///
/// This is `WeightedIndex::sample`: the index is one of the weights that the
/// distribution was made of, and its weight is not zero.
#[verifier::external_body]
pub(crate) fn sample_index(distribution: &IndexDistribution, rng: &mut StdRng) -> (r: usize)
    ensures
        r < index_weights(*distribution).len(),
        index_weights(*distribution)[r as int] > 0,
{
    distribution.distribution.sample(rng)
}

impl IndexDistribution {
    /// The distribution over the places of `weights` in which each place is
    /// as likely as its weight is large, if the weights are usable.
    pub fn new(weights: &Vec<Real>) -> (r: Result<Self, WeightError>)
        ensures
            match r {
                Ok(distribution) => weights_fault(weights@) is None && index_weights(distribution)
                    == weights@,
                Err(error) => weights_fault(weights@) == Some(error),
            },
    {
        weighted_index(weights)
    }
}

/// The seeds of a frame: one for the choices of the frame, and one for its
/// model. The seeds of two frames that follow each other are two apart, and
/// the seeds begin anew after the last 64-bit number.
pub open spec fn frame_seeds_of(seed: u64, frame_number: u32) -> (u64, u64) {
    (
        ((seed + 2 * frame_number) % 0x1_0000_0000_0000_0000) as u64,
        ((seed + 2 * frame_number + 1) % 0x1_0000_0000_0000_0000) as u64,
    )
}

/// The seeds of a frame, of the seed of a run.
pub fn frame_seeds(seed: u64, frame_number: u32) -> (r: (u64, u64))
    ensures
        r == frame_seeds_of(seed, frame_number),
{
    let wide: u128 = seed as u128 + 2 * (frame_number as u128);
    ((wide % 0x1_0000_0000_0000_0000) as u64, ((wide + 1) % 0x1_0000_0000_0000_0000) as u64)
}

/// A whole number that is drawn anew for each use.
#[derive(Clone, Debug)]
pub enum IntRandomDistribution<T> {
    /// Always the same number.
    ConstantInt { value: NumExpression<T> },
    /// A number from `min` up to, but not including, `max`, each as likely as the others.
    UniformInt { min: NumExpression<T>, max: NumExpression<T> },
}

impl<T: Number> IntRandomDistribution<T> {
    /// The range that a draw in the frame `frame_index` comes from: its least
    /// number, and the number after its greatest. A uniform distribution
    /// whose bounds leave no number between them has no range.
    pub open spec fn spec_range(
        self,
        frame_index: int,
        environment: Seq<(Seq<char>, Seq<char>)>,
    ) -> Result<(int, int), JsonNumError> {
        match self {
            IntRandomDistribution::ConstantInt { value } => match value.spec_value(
                frame_index,
                environment,
            ) {
                Ok(number) => Ok((number, number + 1)),
                Err(error) => Err(error),
            },
            IntRandomDistribution::UniformInt { min, max } => match min.spec_value(
                frame_index,
                environment,
            ) {
                Err(error) => Err(error),
                Ok(low) => match max.spec_value(frame_index, environment) {
                    Err(error) => Err(error),
                    Ok(high) => if low < high {
                        Ok((low, high))
                    } else {
                        Err(JsonNumError::EmptyRange)
                    },
                },
            },
        }
    }

    /// Draws a number in the frame `frame_index`.
    ///
    /// The draw succeeds where the distribution has a range, and the number
    /// then lies in it; else it fails with the error that the range fails with.
    pub fn sample(&self, frame_index: usize, environment: &Environment, rng: &mut StdRng) -> (r:
        Result<T, JsonNumError>)
        ensures
            match r {
                Ok(number) => self.spec_range(frame_index as int, environment@) matches Ok(range)
                    && range.0 <= number.to_int() < range.1,
                Err(error) => self.spec_range(frame_index as int, environment@) == Err::<
                    (int, int),
                    JsonNumError,
                >(error),
            },
    {
        match self {
            IntRandomDistribution::ConstantInt { value } => value.value(frame_index, environment),
            IntRandomDistribution::UniformInt { min, max } => {
                let low = match min.value(frame_index, environment) {
                    Ok(low) => low,
                    Err(error) => {
                        return Err(error);
                    },
                };
                let high = match max.value(frame_index, environment) {
                    Ok(high) => high,
                    Err(error) => {
                        return Err(error);
                    },
                };
                if low.to_u64() < high.to_u64() {
                    let drawn = random_range(rng, low.to_u64(), high.to_u64());
                    proof {
                        T::lemma_fits_between(low, high, drawn as int);
                    }
                    match T::from_u64(drawn) {
                        Some(number) => Ok(number),
                        None => {
                            assert(false);
                            Ok(low)
                        },
                    }
                } else {
                    Err(JsonNumError::EmptyRange)
                }
            },
        }
    }
}

} // verus!
