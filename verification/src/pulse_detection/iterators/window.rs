//! The stage that applies a window.
use super::{times_never_fall, Stream};
use crate::fixed::{real_sub_spec, Real};
use crate::pulse_detection::window::Window;
use vstd::prelude::*;

verus! {

/// What a window in the state `m` makes of the trace points `input`: one
/// point for each input point at which the window is ready, with the window's
/// output as its value and its time moved back by the window's lag.
pub open spec fn windowed<W: Window>(m: W::Model, input: Seq<(Real, W::Input)>) -> Seq<
    (Real, W::Output),
>
    decreases input.len(),
{
    if input.len() == 0 {
        Seq::empty()
    } else {
        let after = W::step(m, input[0].1);
        let rest = windowed::<W>(after, input.skip(1));
        if W::ready(after) {
            seq![(real_sub_spec(input[0].0, W::shift(after)), W::out(after))] + rest
        } else {
            rest
        }
    }
}

/// Once a window is primed it answers every trace point, and each answer
/// stands at the time of its trace point less the window's lag.
pub proof fn lemma_primed_window_shifts_times<W: Window>(m: W::Model, input: Seq<(Real, W::Input)>)
    requires
        W::ready(m),
    ensures
        windowed::<W>(m, input).len() == input.len(),
        forall|i: int|
            0 <= i < input.len() ==> (#[trigger] windowed::<W>(m, input)[i]).0 == real_sub_spec(
                input[i].0,
                W::shift(m),
            ),
    decreases input.len(),
{
    if input.len() > 0 {
        let after = W::step(m, input[0].1);
        W::lemma_stays_ready(m, input[0].1);
        W::lemma_step_keeps_shift(m, input[0].1);
        lemma_primed_window_shifts_times::<W>(after, input.skip(1));
        let rest = windowed::<W>(after, input.skip(1));
        assert forall|i: int| 0 <= i < input.len() implies (#[trigger] windowed::<W>(
            m,
            input,
        )[i]).0 == real_sub_spec(input[i].0, W::shift(m)) by {
            if i > 0 {
                assert(windowed::<W>(m, input)[i] == rest[i - 1]);
                assert(input.skip(1)[i - 1] == input[i]);
            }
        }
    }
}

/// No answer of a window stands before the earliest of its trace points less the window's lag.
pub proof fn lemma_windowed_not_before<W: Window>(
    m: W::Model,
    input: Seq<(Real, W::Input)>,
    least: Real,
)
    requires
        forall|j: int| 0 <= j < input.len() ==> least <= (#[trigger] input[j]).0,
    ensures
        forall|k: int|
            0 <= k < windowed::<W>(m, input).len() ==> real_sub_spec(least, W::shift(m)) <= (
            #[trigger] windowed::<W>(m, input)[k]).0,
    decreases input.len(),
{
    if input.len() > 0 {
        let after = W::step(m, input[0].1);
        let rest = windowed::<W>(after, input.skip(1));
        W::lemma_step_keeps_shift(m, input[0].1);
        assert forall|j: int| 0 <= j < input.skip(1).len() implies least <= (
        #[trigger] input.skip(1)[j]).0 by {
            assert(input.skip(1)[j] == input[j + 1]);
        }
        lemma_windowed_not_before::<W>(after, input.skip(1), least);
        assert(least <= input[0].0);
        assert forall|k: int| 0 <= k < windowed::<W>(m, input).len() implies real_sub_spec(
            least,
            W::shift(m),
        ) <= (#[trigger] windowed::<W>(m, input)[k]).0 by {
            if W::ready(after) {
                if k > 0 {
                    assert(windowed::<W>(m, input)[k] == rest[k - 1]);
                }
            }
        }
    }
}

/// A window keeps the order of time: where the times of its trace points
/// never fall, the times of its answers never fall.
pub proof fn lemma_windowed_times_never_fall<W: Window>(m: W::Model, input: Seq<(Real, W::Input)>)
    requires
        times_never_fall(input),
    ensures
        times_never_fall(windowed::<W>(m, input)),
    decreases input.len(),
{
    if input.len() > 0 {
        let after = W::step(m, input[0].1);
        let later = input.skip(1);
        let rest = windowed::<W>(after, later);
        W::lemma_step_keeps_shift(m, input[0].1);
        assert(times_never_fall(later)) by {
            assert forall|i: int, j: int| 0 <= i <= j < later.len() implies later[i].0
                <= later[j].0 by {
                assert(later[i] == input[i + 1] && later[j] == input[j + 1]);
            }
        }
        lemma_windowed_times_never_fall::<W>(after, later);
        assert forall|j: int| 0 <= j < later.len() implies input[0].0 <= (#[trigger] later[j]).0 by {
            assert(later[j] == input[j + 1]);
        }
        lemma_windowed_not_before::<W>(after, later, input[0].0);
        let all = windowed::<W>(m, input);
        assert forall|i: int, j: int| 0 <= i <= j < all.len() implies all[i].0 <= all[j].0 by {
            if W::ready(after) {
                if i > 0 {
                    assert(all[i] == rest[i - 1] && all[j] == rest[j - 1]);
                } else if j > 0 {
                    assert(all[j] == rest[j - 1]);
                }
            }
        }
    }
}

/// Applies a window to the trace points of another stream.
pub struct WindowIter<I, W> {
    /// The window to apply.
    window_function: W,
    /// Where the trace points come from.
    source: I,
}

impl<I, W> WindowIter<I, W> where W: Window, I: Stream<Item = (Real, W::Input)> {
    /// The stream that the trace points come from.
    pub closed spec fn spec_source(&self) -> I {
        self.source
    }

    /// The window that is applied.
    pub closed spec fn spec_window(&self) -> W {
        self.window_function
    }

    /// A stage that applies `window_function` to the trace points of `source`.
    pub fn new(source: I, window_function: W) -> (r: Self)
        ensures
            r.spec_source() == source,
            r.spec_window() == window_function,
    {
        WindowIter { source, window_function }
    }

    /// The window that is applied.
    pub fn get_window(&self) -> (r: &W)
        ensures
            *r == self.spec_window(),
    {
        &self.window_function
    }
}

impl<I, W> Stream for WindowIter<I, W> where W: Window, I: Stream<Item = (Real, W::Input)> {
    type Item = (Real, W::Output);

    open spec fn pending(&self) -> Seq<(Real, W::Output)> {
        windowed::<W>(self.spec_window().model(), self.spec_source().pending())
    }

    open spec fn wf(&self) -> bool {
        self.spec_source().wf() && self.spec_window().wf()
    }

    fn next(&mut self) -> (r: Option<(Real, W::Output)>) {
        loop
            invariant
                self.wf(),
                self.pending() == old(self).pending(),
            decreases self.source.pending().len(),
        {
            let (time, value) = match self.source.next() {
                Some(point) => point,
                None => {
                    return None;
                },
            };
            if self.window_function.push(value) {
                let shifted = self.window_function.apply_time_shift(time);
                match self.window_function.output() {
                    Some(output) => {
                        return Some((shifted, output));
                    },
                    None => {
                        return None;
                    },
                }
            }
        }
    }
}

/// Gives every stream of trace points the method `window`.
pub trait WindowIterable<W: Window>: Stream<Item = (Real, W::Input)> + Sized {
    /// A stage that applies `window` to the trace points of this stream.
    fn window(self, window: W) -> (r: WindowIter<Self, W>)
        ensures
            r.spec_source() == self,
            r.spec_window() == window,
    ;
}

impl<I, W> WindowIterable<W> for I where W: Window, I: Stream<Item = (Real, W::Input)> {
    fn window(self, window: W) -> (r: WindowIter<I, W>) {
        WindowIter::<I, W>::new(self, window)
    }
}

} // verus!
