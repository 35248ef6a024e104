//! The record of a pulse, with every feature that a detector may find.
//!
//! The features are optional, so that no assembler has to give them all.
use crate::fixed::Real;
use crate::pulse_detection::datatype::RealArray;
use vstd::prelude::*;

verus! {

/// A value of a trace and the time at which it occurs.
#[derive(Clone, Copy, Debug, PartialEq)]
pub struct TimeValue<T> {
    /// The time at which the value occurs.
    pub time: Real,
    /// The value of the trace.
    pub value: T,
}

/// A [`TimeValue`] of which the time or the value may be missing.
#[derive(Clone, Copy, Debug, PartialEq)]
pub struct TimeValueOptional<T> {
    /// The time at which the value occurs.
    pub time: Option<Real>,
    /// The value of the trace.
    pub value: Option<T>,
}

impl<T> TimeValueOptional<T> {
    /// A time and value that are both missing.
    pub fn none() -> (r: Self)
        ensures
            r == (TimeValueOptional::<T> { time: None, value: None }),
    {
        TimeValueOptional { time: None, value: None }
    }
}

impl<T> From<TimeValue<T>> for TimeValueOptional<T> {
    fn from(source: TimeValue<T>) -> (r: Self) {
        TimeValueOptional { time: Some(source.time), value: Some(source.value) }
    }
}

impl<T> vstd::std_specs::convert::FromSpecImpl<TimeValue<T>> for TimeValueOptional<T> {
    open spec fn obeys_from_spec() -> bool {
        true
    }

    /// Both the time and the value are present.
    open spec fn from_spec(source: TimeValue<T>) -> Self {
        TimeValueOptional { time: Some(source.time), value: Some(source.value) }
    }
}

/// A pulse, as an assembler gives it out.
#[derive(Clone, Copy, Debug, PartialEq)]
pub struct Pulse {
    /// The time at which the pulse starts, and the value there.
    pub start: TimeValueOptional<Real>,
    /// The time at which the pulse ends, and the value there.
    pub end: TimeValueOptional<Real>,
    /// The time at which the pulse peaks, and the value there.
    pub peak: TimeValueOptional<Real>,
    /// The time at which the pulse rises most steeply, and the value and difference there.
    pub steepest_rise: TimeValueOptional<RealArray<2>>,
    /// The time at which the pulse falls most sharply, and the value and difference there.
    pub sharpest_fall: TimeValueOptional<RealArray<2>>,
}

impl Default for Pulse {
    fn default() -> (r: Self)
        ensures
            r == (Pulse {
                start: TimeValueOptional { time: None, value: None },
                end: TimeValueOptional { time: None, value: None },
                peak: TimeValueOptional { time: None, value: None },
                steepest_rise: TimeValueOptional { time: None, value: None },
                sharpest_fall: TimeValueOptional { time: None, value: None },
            }),
    {
        Pulse {
            start: TimeValueOptional::none(),
            end: TimeValueOptional::none(),
            peak: TimeValueOptional::none(),
            steepest_rise: TimeValueOptional::none(),
            sharpest_fall: TimeValueOptional::none(),
        }
    }
}

} // verus!
