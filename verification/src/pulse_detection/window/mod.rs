//! Windows work on a sliding stretch of a waveform.
pub mod baseline;
pub mod finite_differences;
pub mod smoothing_window;

use crate::fixed::{real_sub_spec, Real};
use vstd::prelude::*;

verus! {

/// Takes the values of a waveform one by one and, once it has seen enough of
/// them, answers each with a processed value.
pub trait Window {
    /// The values taken in.
    type Input;

    /// The values given out.
    type Output;

    /// What the window is, mathematically.
    type Model;

    /// The window as a mathematical value.
    spec fn model(&self) -> Self::Model;

    /// Whether the window's representation is sound.
    spec fn wf(&self) -> bool;

    /// The window after it took `value` in.
    spec fn step(m: Self::Model, value: Self::Input) -> Self::Model;

    /// Whether the window has an output for the value it took in last.
    spec fn ready(m: Self::Model) -> bool;

    /// The output for the value taken in last.
    spec fn out(m: Self::Model) -> Self::Output;

    /// How far the window's output lags behind its input.
    spec fn shift(m: Self::Model) -> Real;

    /// The lag of a window never changes.
    proof fn lemma_step_keeps_shift(m: Self::Model, value: Self::Input)
        ensures
            Self::shift(Self::step(m, value)) == Self::shift(m),
    ;

    /// A window that has begun to give output goes on doing so.
    proof fn lemma_stays_ready(m: Self::Model, value: Self::Input)
        requires
            Self::ready(m),
        ensures
            Self::ready(Self::step(m, value)),
    ;

    /// Takes a value in and says whether an output is ready.
    fn push(&mut self, value: Self::Input) -> (ready: bool)
        requires
            old(self).wf(),
        ensures
            final(self).wf(),
            final(self).model() == Self::step(old(self).model(), value),
            ready == Self::ready(final(self).model()),
    ;

    /// The output for the value taken in last, if there is one.
    fn output(&self) -> (r: Option<Self::Output>)
        requires
            self.wf(),
        ensures
            r == if Self::ready(self.model()) {
                Some(Self::out(self.model()))
            } else {
                None
            },
    ;

    /// Moves a time back by the window's lag.
    fn apply_time_shift(&self, time: Real) -> (r: Real)
        requires
            self.wf(),
        ensures
            r == real_sub_spec(time, Self::shift(self.model())),
    ;
}

} // verus!
