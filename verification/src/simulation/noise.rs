//! Noise on a simulated trace.
//!
//! What kind of noise a source gives is of no concern here: the values are
//! drawn elsewhere. Here a source says where on the trace it is active, and
//! its noise is averaged over the last samples.
use super::interval::Interval;
use super::utils::{Environment, JsonNumError, NumExpression};
use crate::fixed::{real_add, real_add_spec, Real, Time};
use crate::pulse_detection::window::smoothing_window::{mean_in, mean_of};
use std::collections::VecDeque;
use vstd::prelude::*;

verus! {

/// A source of noise.
#[derive(Clone, Debug)]
pub struct NoiseSource<A> {
    /// The stretch of the trace on which the source is active.
    pub bounds: Interval<NumExpression<Time>>,
    /// The kind of the noise.
    pub attributes: A,
    /// Over how many samples the noise is averaged: one for no smoothing.
    pub smoothing_window_length: NumExpression<usize>,
}

impl<A> NoiseSource<A> {
    /// Whether the source is active at `time`: from the least to the greatest
    /// time of its bounds.
    pub open spec fn spec_is_active(
        self,
        time: Time,
        frame_index: int,
        environment: Seq<(Seq<char>, Seq<char>)>,
    ) -> Result<bool, JsonNumError> {
        match self.bounds.min.spec_value(frame_index, environment) {
            Err(error) => Err(error),
            Ok(min) => match self.bounds.max.spec_value(frame_index, environment) {
                Err(error) => Err(error),
                Ok(max) => Ok(min <= time <= max),
            },
        }
    }

    /// The noise at `time`, where `drawn` was drawn for it: `drawn` where the
    /// source is active, and zero elsewhere.
    pub open spec fn spec_sample(
        self,
        time: Time,
        frame_index: int,
        environment: Seq<(Seq<char>, Seq<char>)>,
        drawn: Real,
    ) -> Result<Real, JsonNumError> {
        match self.spec_is_active(time, frame_index, environment) {
            Err(error) => Err(error),
            Ok(active) => Ok(
                if active {
                    drawn
                } else {
                    0
                },
            ),
        }
    }

    /// Whether noise is to be drawn for the source at `time`: the source
    /// gives noise in the frame, and is active at `time`.
    pub open spec fn spec_wants_draw(
        self,
        time: Time,
        frame_index: int,
        environment: Seq<(Seq<char>, Seq<char>)>,
    ) -> Result<bool, JsonNumError> {
        match noise_error(self, frame_index, environment) {
            Some(error) => Err(error),
            None => self.spec_is_active(time, frame_index, environment),
        }
    }

    /// Tests whether noise is to be drawn for the source at `time`.
    pub fn wants_draw(&self, time: Time, frame_index: usize, environment: &Environment) -> (r:
        Result<bool, JsonNumError>)
        ensures
            r == self.spec_wants_draw(time, frame_index as int, environment@),
    {
        match self.smoothing_window_length.value(frame_index, environment) {
            Err(error) => Err(error),
            Ok(window_len) => if window_len < 1 {
                Err(JsonNumError::EmptyWindow)
            } else {
                self.is_active(time, frame_index, environment)
            },
        }
    }

    /// Tests whether the source is active at `time`.
    pub fn is_active(&self, time: Time, frame_index: usize, environment: &Environment) -> (r:
        Result<bool, JsonNumError>)
        ensures
            r == self.spec_is_active(time, frame_index as int, environment@),
    {
        let min = match self.bounds.min.value(frame_index, environment) {
            Ok(min) => min,
            Err(error) => {
                return Err(error);
            },
        };
        let max = match self.bounds.max.value(frame_index, environment) {
            Ok(max) => max,
            Err(error) => {
                return Err(error);
            },
        };
        Ok(min <= time && time <= max)
    }

    /// The noise at `time`, where `drawn` was drawn for it.
    pub fn sample(&self, time: Time, frame_index: usize, environment: &Environment, drawn: Real) -> (r:
        Result<Real, JsonNumError>)
        ensures
            r == self.spec_sample(time, frame_index as int, environment@, drawn),
    {
        match self.is_active(time, frame_index, environment) {
            Err(error) => Err(error),
            Ok(active) => Ok(
                if active {
                    drawn
                } else {
                    0
                },
            ),
        }
    }
}

/// Why a source of noise gives no noise in the frame `frame_index`, if it
/// gives none: the number of samples to average over has no value or is
/// zero, or a bound of the source has no value.
pub open spec fn noise_error<A>(
    source: NoiseSource<A>,
    frame_index: int,
    environment: Seq<(Seq<char>, Seq<char>)>,
) -> Option<JsonNumError> {
    match source.smoothing_window_length.spec_value(frame_index, environment) {
        Err(error) => Some(error),
        Ok(window_len) => if window_len < 1 {
            Some(JsonNumError::EmptyWindow)
        } else {
            match source.bounds.min.spec_value(frame_index, environment) {
                Err(error) => Some(error),
                Ok(_) => match source.bounds.max.spec_value(frame_index, environment) {
                    Err(error) => Some(error),
                    Ok(_) => None,
                },
            }
        },
    }
}

/// The samples that a noise holds after a step at `time`, and the value that
/// the step gives for `value`, where the noise has the source `source` and
/// holds the samples `recent`: the noise at `time` takes the place of the
/// oldest sample if as many are held as the noise is averaged over, and the
/// mean of the samples held is added to `value`.
pub open spec fn noisify_step<A>(
    source: NoiseSource<A>,
    recent: Seq<Real>,
    value: Real,
    time: Time,
    frame_index: int,
    environment: Seq<(Seq<char>, Seq<char>)>,
    drawn: Real,
) -> Result<(Seq<Real>, Real), JsonNumError> {
    match source.smoothing_window_length.spec_value(frame_index, environment) {
        Err(error) => Err(error),
        Ok(window_len) => if window_len < 1 {
            Err(JsonNumError::EmptyWindow)
        } else {
            match source.spec_sample(time, frame_index, environment, drawn) {
                Err(error) => Err(error),
                Ok(sample) => {
                    let held = renewed(recent, sample, window_len);
                    Ok((held, real_add_spec(value, mean_of(held))))
                },
            }
        },
    }
}

/// The last `limit - 1` of some samples at most, with `sample` after them.
pub open spec fn renewed(recent: Seq<Real>, sample: Real, limit: int) -> Seq<Real>
    recommends
        limit >= 1,
{
    if recent.len() >= limit {
        recent.skip(recent.len() - (limit - 1)).push(sample)
    } else {
        recent.push(sample)
    }
}

/// The noise of one source on one trace: the source, and its last samples.
pub struct Noise<'a, A> {
    source: &'a NoiseSource<A>,
    prev: VecDeque<Real>,
}

impl<'a, A> Noise<'a, A> {
    /// The source of the noise.
    pub closed spec fn source(&self) -> NoiseSource<A> {
        *self.source
    }

    /// The last samples of the noise, oldest first.
    pub closed spec fn recent(&self) -> Seq<Real> {
        self.prev@
    }

    /// The samples that are held after a step at `time`, and the value that
    /// the step gives for `value`.
    pub open spec fn spec_noisify(
        self,
        value: Real,
        time: Time,
        frame_index: int,
        environment: Seq<(Seq<char>, Seq<char>)>,
        drawn: Real,
    ) -> Result<(Seq<Real>, Real), JsonNumError> {
        noisify_step(self.source(), self.recent(), value, time, frame_index, environment, drawn)
    }

    /// The noise of `source`, with no sample yet.
    pub fn new(source: &'a NoiseSource<A>) -> (r: Self)
        ensures
            r.source() == *source,
            r.recent() == Seq::<Real>::empty(),
    {
        Self { source, prev: VecDeque::new() }
    }

    /// Adds the noise at `time` to `value`, where `drawn` was drawn for the
    /// source. Where the step fails nothing changes.
    pub fn noisify(
        &mut self,
        value: Real,
        time: Time,
        frame_index: usize,
        environment: &Environment,
        drawn: Real,
    ) -> (r: Result<Real, JsonNumError>)
        ensures
            final(self).source() == old(self).source(),
            match r {
                Ok(noisy) => old(self).spec_noisify(
                    value,
                    time,
                    frame_index as int,
                    environment@,
                    drawn,
                ) == Ok::<(Seq<Real>, Real), JsonNumError>((final(self).recent(), noisy)),
                Err(error) => old(self).spec_noisify(
                    value,
                    time,
                    frame_index as int,
                    environment@,
                    drawn,
                ) == Err::<(Seq<Real>, Real), JsonNumError>(error) && final(self).recent() == old(
                    self,
                ).recent(),
            },
            r is Ok ==> final(self).recent().len() <= old(self).source().smoothing_window_length.spec_value(
                frame_index as int,
                environment@,
            )->Ok_0,
    {
        let window_len = match self.source.smoothing_window_length.value(frame_index, environment) {
            Ok(window_len) => window_len,
            Err(error) => {
                return Err(error);
            },
        };
        if window_len < 1 {
            return Err(JsonNumError::EmptyWindow);
        }
        let sample = match self.source.sample(time, frame_index, environment, drawn) {
            Ok(sample) => sample,
            Err(error) => {
                return Err(error);
            },
        };
        proof {
            vstd::std_specs::vecdeque::axiom_spec_len(&self.prev);
        }
        while self.prev.len() >= window_len
            invariant
                window_len >= 1,
                self.source == old(self).source,
                self.prev@.len() <= old(self).prev@.len(),
                self.prev@ == old(self).prev@.skip(old(self).prev@.len() - self.prev@.len()),
                old(self).prev@.len() < window_len ==> self.prev@ == old(self).prev@,
                old(self).prev@.len() >= window_len ==> self.prev@.len() >= window_len - 1,
            decreases self.prev@.len(),
        {
            let ghost before = self.prev@;
            let oldest = self.prev.pop_front();
            proof {
                vstd::std_specs::vecdeque::axiom_spec_len(&self.prev);
                assert(self.prev@ =~= old(self).prev@.skip(
                    old(self).prev@.len() - self.prev@.len(),
                ));
            }
        }
        proof {
            assert(old(self).prev@.skip(0) =~= old(self).prev@);
        }
        self.prev.push_back(sample);
        Ok(real_add(value, mean_in(&self.prev)))
    }
}

} // verus!
