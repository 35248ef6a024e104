//! The stage that applies a detector.
use super::Stream;
use crate::fixed::Real;
use crate::pulse_detection::detectors::Detector;
use vstd::prelude::*;

verus! {

/// The events that `detector` finds in the trace points `input`, followed by
/// the event that it flushes at the end of the trace, if any.
pub open spec fn detected<D: Detector>(detector: D, input: Seq<(Real, D::Value)>) -> Seq<
    (Real, D::Event),
>
    decreases input.len(),
{
    if input.len() == 0 {
        match detector.spec_finish().1 {
            Some(event) => seq![event],
            None => Seq::empty(),
        }
    } else {
        let (after, event) = detector.spec_signal(input[0].0, input[0].1);
        let rest = detected(after, input.skip(1));
        match event {
            Some(event) => seq![event] + rest,
            None => rest,
        }
    }
}

/// A detector that flushes nothing finds nothing in an empty trace.
pub proof fn lemma_nothing_comes_of_nothing<D: Detector>(detector: D)
    requires
        detector.spec_finish().1 is None,
    ensures
        detected(detector, Seq::empty()) == Seq::<(Real, D::Event)>::empty(),
{
}

/// Applies a detector to the trace points of another stream.
pub struct EventIter<I, D> {
    /// Where the trace points come from.
    source: I,
    /// The detector to apply.
    detector: D,
}

impl<I, D> EventIter<I, D> where D: Detector, I: Stream<Item = (Real, D::Value)> {
    /// The stream that the trace points come from.
    pub closed spec fn spec_source(&self) -> I {
        self.source
    }

    /// The detector that is applied.
    pub closed spec fn spec_detector(&self) -> D {
        self.detector
    }

    /// A stage that applies `detector` to the trace points of `source`.
    pub fn new(source: I, detector: D) -> (r: Self)
        ensures
            r.spec_source() == source,
            r.spec_detector() == detector,
    {
        EventIter { source, detector }
    }
}

impl<I, D> Stream for EventIter<I, D> where D: Detector, I: Stream<Item = (Real, D::Value)> {
    type Item = (Real, D::Event);

    open spec fn pending(&self) -> Seq<(Real, D::Event)> {
        detected(self.spec_detector(), self.spec_source().pending())
    }

    open spec fn wf(&self) -> bool {
        self.spec_source().wf()
    }

    fn next(&mut self) -> (r: Option<(Real, D::Event)>) {
        loop
            invariant
                self.wf(),
                self.pending() == old(self).pending(),
            decreases self.source.pending().len(),
        {
            match self.source.next() {
                Some((time, value)) => {
                    let found = self.detector.signal(time, value);
                    if found.is_some() {
                        return found;
                    }
                },
                None => {
                    proof {
                        self.detector.lemma_finish_is_final();
                    }
                    let flushed = self.detector.finish();
                    proof {
                        if flushed is Some {
                            assert(old(self).pending() =~= seq![flushed->0]);
                            assert(self.pending() =~= old(self).pending().skip(1));
                        }
                    }
                    return flushed;
                },
            }
        }
    }
}

/// Gives every stream of trace points the method `events`.
pub trait EventFilter<D: Detector>: Stream<Item = (Real, D::Value)> + Sized {
    /// A stage that applies `detector` to the trace points of this stream.
    fn events(self, detector: D) -> (r: EventIter<Self, D>)
        ensures
            r.spec_source() == self,
            r.spec_detector() == detector,
    ;
}

impl<I, D> EventFilter<D> for I where D: Detector, I: Stream<Item = (Real, D::Value)> {
    fn events(self, detector: D) -> (r: EventIter<I, D>) {
        EventIter::new(self, detector)
    }
}

} // verus!
