//! The stage that applies an assembler.
use super::Stream;
use crate::fixed::Real;
use crate::pulse_detection::detectors::{Assembler, Detector};
use crate::pulse_detection::pulse::Pulse;
use vstd::prelude::*;

verus! {

/// The pulses that `assembler` makes of the events `input`.
pub open spec fn assembled<A: Assembler>(
    assembler: A,
    input: Seq<(Real, <A::DetectorType as Detector>::Event)>,
) -> Seq<Pulse>
    decreases input.len(),
{
    if input.len() == 0 {
        Seq::empty()
    } else {
        let (after, pulse) = assembler.spec_assemble_pulses(input[0]);
        let rest = assembled(after, input.skip(1));
        match pulse {
            Some(pulse) => seq![pulse] + rest,
            None => rest,
        }
    }
}

/// Applies an assembler to the events of another stream.
pub struct AssemblerIter<I, A> {
    /// Where the events come from.
    source: I,
    /// The assembler to apply.
    assembler: A,
}

impl<I, A> AssemblerIter<I, A> where
    A: Assembler,
    I: Stream<Item = (Real, <A::DetectorType as Detector>::Event)>,
 {
    /// The stream that the events come from.
    pub closed spec fn spec_source(&self) -> I {
        self.source
    }

    /// The assembler that is applied.
    pub closed spec fn spec_assembler(&self) -> A {
        self.assembler
    }

    /// A stage that applies `assembler` to the events of `source`.
    pub fn new(source: I, assembler: A) -> (r: Self)
        ensures
            r.spec_source() == source,
            r.spec_assembler() == assembler,
    {
        AssemblerIter { source, assembler }
    }
}

impl<I, A> Stream for AssemblerIter<I, A> where
    A: Assembler,
    I: Stream<Item = (Real, <A::DetectorType as Detector>::Event)>,
 {
    type Item = Pulse;

    open spec fn pending(&self) -> Seq<Pulse> {
        assembled(self.spec_assembler(), self.spec_source().pending())
    }

    open spec fn wf(&self) -> bool {
        self.spec_source().wf()
    }

    fn next(&mut self) -> (r: Option<Pulse>) {
        loop
            invariant
                self.wf(),
                self.pending() == old(self).pending(),
            decreases self.source.pending().len(),
        {
            match self.source.next() {
                Some(event) => {
                    let pulse = self.assembler.assemble_pulses(event);
                    if pulse.is_some() {
                        return pulse;
                    }
                },
                None => {
                    return None;
                },
            }
        }
    }
}

/// Gives every stream of events the method `assemble`.
pub trait AssembleFilter<A: Assembler>: Stream<
    Item = (Real, <A::DetectorType as Detector>::Event),
> + Sized {
    /// A stage that applies `assembler` to the events of this stream.
    fn assemble(self, assembler: A) -> (r: AssemblerIter<Self, A>)
        ensures
            r.spec_source() == self,
            r.spec_assembler() == assembler,
    ;
}

impl<I, A> AssembleFilter<A> for I where
    A: Assembler,
    I: Stream<Item = (Real, <A::DetectorType as Detector>::Event)>,
 {
    fn assemble(self, assembler: A) -> (r: AssemblerIter<I, A>) {
        AssemblerIter::new(self, assembler)
    }
}

} // verus!
