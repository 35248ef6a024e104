//! Intervals of values.
use core::ops::RangeInclusive;
use vstd::prelude::*;
use vstd::std_specs::cmp::{PartialOrdIs, PartialOrdSpec};

verus! {

/// The values from `min` to `max`, both included.
#[derive(Clone, Copy, Debug)]
pub struct Interval<T> {
    /// The least value.
    pub min: T,
    /// The greatest value.
    pub max: T,
}

impl<T: PartialOrd + Copy> Interval<T> {
    /// The interval as a range.
    pub fn range_inclusive(&self) -> (r: RangeInclusive<T>)
        ensures
            r@.start == self.min,
            r@.end == self.max,
            !r@.exhausted,
    {
        RangeInclusive::new(self.min, self.max)
    }

    /// Whether `value` lies in the interval.
    pub fn is_in(&self, value: T) -> (r: bool)
        ensures
            T::obeys_partial_cmp_spec() ==> r == (self.min.is_le(&value) && value.is_le(&self.max)),
    {
        self.range_inclusive().contains(&value)
    }
}

} // verus!
