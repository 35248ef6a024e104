//! The stages of a pipeline, each pulled from by the next.
pub mod assembler;
pub mod event;
pub mod window;

use crate::fixed::Real;
use crate::pulse_detection::datatype::Stats;
use vstd::prelude::*;

verus! {

/// Something that hands out items one by one until it has no more.
pub trait Stream {
    /// What is handed out.
    type Item;

    /// The items that are still to come, in their order.
    spec fn pending(&self) -> Seq<Self::Item>;

    /// Whether the stream's representation is sound.
    spec fn wf(&self) -> bool;

    /// Hands out the next item, or `None` when there is none left.
    fn next(&mut self) -> (r: Option<Self::Item>)
        requires
            old(self).wf(),
        ensures
            final(self).wf(),
            match r {
                Some(item) => old(self).pending().len() > 0 && item == old(self).pending()[0]
                    && final(self).pending() == old(self).pending().skip(1),
                None => old(self).pending().len() == 0 && final(self).pending().len() == 0,
            },
    ;
}

/// Whether the times of some trace points never fall.
pub open spec fn times_never_fall<V>(points: Seq<(Real, V)>) -> bool {
    forall|i: int, j: int| 0 <= i <= j < points.len() ==> points[i].0 <= points[j].0
}

/// A stream over the items of a vector.
pub struct VecStream<T> {
    items: Vec<T>,
    position: usize,
}

impl<T: Copy> VecStream<T> {
    /// A stream that hands out `items` from the first to the last.
    pub fn new(items: Vec<T>) -> (r: Self)
        ensures
            r.wf(),
            r.pending() == items@,
    {
        VecStream { items, position: 0 }
    }
}

impl<T: Copy> Stream for VecStream<T> {
    type Item = T;

    closed spec fn pending(&self) -> Seq<T> {
        self.items@.skip(self.position as int)
    }

    closed spec fn wf(&self) -> bool {
        self.position <= self.items.len()
    }

    fn next(&mut self) -> (r: Option<T>) {
        if self.position < self.items.len() {
            let item = self.items[self.position];
            self.position += 1;
            proof {
                assert(self.items@.skip(self.position as int) =~= old(self).items@.skip(
                    old(self).position as int,
                ).skip(1));
            }
            Some(item)
        } else {
            None
        }
    }
}

/// Collects what is left of a stream.
pub fn collect<S: Stream>(stream: &mut S) -> (r: Vec<S::Item>)
    requires
        old(stream).wf(),
    ensures
        final(stream).wf(),
        r@ == old(stream).pending(),
        final(stream).pending().len() == 0,
{
    let mut items: Vec<S::Item> = Vec::new();
    loop
        invariant
            stream.wf(),
            items@ + stream.pending() == old(stream).pending(),
        ensures
            stream.wf(),
            items@ == old(stream).pending(),
            stream.pending().len() == 0,
        decreases stream.pending().len(),
    {
        let ghost before = stream.pending();
        match stream.next() {
            Some(item) => {
                items.push(item);
                proof {
                    assert(items@ + stream.pending() =~= old(stream).pending()) by {
                        assert(before =~= seq![before[0]] + before.skip(1));
                    }
                }
            },
            None => {
                proof {
                    assert(items@ =~= items@ + stream.pending());
                }
                break ;
            },
        }
    }
    items
}

} // verus!

verus! {

/// The trace points `input` with the mean of each in place of its statistics.
pub open spec fn means(input: Seq<(Real, Stats)>) -> Seq<(Real, Real)> {
    Seq::new(input.len(), |i: int| (input[i].0, input[i].1.mean))
}

/// Gives the mean of each trace point of another stream in place of its statistics.
pub struct MeanIter<I> {
    /// Where the trace points come from.
    source: I,
}

impl<I: Stream<Item = (Real, Stats)>> MeanIter<I> {
    /// The stream that the trace points come from.
    pub closed spec fn spec_source(&self) -> I {
        self.source
    }

    /// A stage that gives the means of the trace points of `source`.
    pub fn new(source: I) -> (r: Self)
        ensures
            r.spec_source() == source,
    {
        MeanIter { source }
    }
}

impl<I: Stream<Item = (Real, Stats)>> Stream for MeanIter<I> {
    type Item = (Real, Real);

    open spec fn pending(&self) -> Seq<(Real, Real)> {
        means(self.spec_source().pending())
    }

    open spec fn wf(&self) -> bool {
        self.spec_source().wf()
    }

    fn next(&mut self) -> (r: Option<(Real, Real)>) {
        match self.source.next() {
            Some((time, stats)) => {
                proof {
                    assert(means(self.source.pending()) =~= means(old(self).source.pending()).skip(
                        1,
                    ));
                }
                Some((time, stats.mean))
            },
            None => None,
        }
    }
}

/// The means of trace points whose times never fall have times that never fall.
pub proof fn lemma_means_never_fall(input: Seq<(Real, Stats)>)
    requires
        times_never_fall(input),
    ensures
        times_never_fall(means(input)),
{
    assert forall|i: int, j: int| 0 <= i <= j < means(input).len() implies means(input)[i].0
        <= means(input)[j].0 by {
        assert(input[i].0 <= input[j].0);
    }
}

} // verus!
