//! What a simulation asks of the shapes of its pulses and of the kinds of its noise.
use super::utils::JsonNumError;
use crate::fixed::{Real, Time};
use vstd::prelude::*;

verus! {

/// The shapes of pulses and the kinds of noise.
///
/// A simulation does not look into the templates of its pulses nor into the
/// attributes of its noise: it hands them to a model, which knows how to make
/// a pulse of a template, what a pulse is worth at a time, and how to draw noise.
pub trait PulseModel<P, A> {
    /// A pulse.
    type Event;

    /// Makes a pulse of a template in the frame `frame_index`.
    fn sample(&mut self, template: &P, frame_index: usize) -> Result<Self::Event, JsonNumError>;

    /// The value of a pulse at `time`, in nanoseconds.
    fn get_value_at(&self, event: &Self::Event, time: Real) -> Real;

    /// Draws noise of the kind `attributes` for the sample at `time`.
    fn draw(&mut self, attributes: &A, time: Time, frame_index: usize) -> Result<
        Real,
        JsonNumError,
    >;
}

} // verus!
