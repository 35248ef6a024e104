//! Detectors turn a stream of trace points into a stream of events, and
//! assemblers turn a stream of events into a stream of pulses.
pub mod advanced_muon_detector;
pub mod differential_threshold_detector;
pub mod threshold_detector;

use crate::fixed::Real;
use crate::pulse_detection::pulse::Pulse;
use vstd::prelude::*;

verus! {

/// Whether at least `duration` has passed from `since` to `time`.
pub open spec fn has_elapsed(since: Real, time: Real, duration: Real) -> bool {
    time - since >= duration
}

/// Tests whether at least `duration` has passed from `since` to `time`.
pub fn elapsed(since: Real, time: Real, duration: Real) -> (r: bool)
    ensures
        r == has_elapsed(since, time, duration),
{
    (time as i128) - (since as i128) >= duration as i128
}

/// A state machine that takes trace points one by one and now and then
/// answers with an event.
pub trait Detector: Sized {
    /// The value of a trace point.
    type Value;

    /// The data of an event.
    type Event;

    /// The detector after one trace point, and the event it answers with.
    spec fn spec_signal(self, time: Real, value: Self::Value) -> (Self, Option<(Real, Self::Event)>);

    /// The detector after the end of the trace, and the event it flushes.
    spec fn spec_finish(self) -> (Self, Option<(Real, Self::Event)>);

    /// A detector that was flushed has nothing left to flush.
    proof fn lemma_finish_is_final(self)
        ensures
            self.spec_finish().0.spec_finish().1 is None,
    ;

    /// Takes one trace point and possibly answers with an event.
    fn signal(&mut self, time: Real, value: Self::Value) -> (event: Option<(Real, Self::Event)>)
        ensures
            (*final(self), event) == old(self).spec_signal(time, value),
    ;

    /// Tells the detector that the trace has ended; an event in progress may be flushed.
    fn finish(&mut self) -> (event: Option<(Real, Self::Event)>)
        ensures
            (*final(self), event) == old(self).spec_finish(),
    ;
}

/// A state machine that takes the events of a detector one by one and now
/// and then answers with a pulse.
pub trait Assembler: Sized {
    /// The detector whose events are taken in.
    type DetectorType: Detector;

    /// The assembler after one event, and the pulse it answers with.
    spec fn spec_assemble_pulses(
        self,
        source: (Real, <Self::DetectorType as Detector>::Event),
    ) -> (Self, Option<Pulse>);

    /// Takes one event and possibly answers with a pulse.
    fn assemble_pulses(&mut self, source: (Real, <Self::DetectorType as Detector>::Event)) -> (pulse:
        Option<Pulse>)
        ensures
            (*final(self), pulse) == old(self).spec_assemble_pulses(source),
    ;
}

} // verus!
