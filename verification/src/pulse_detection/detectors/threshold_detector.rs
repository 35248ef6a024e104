//! A detector that watches the trace itself.
//!
//! The detector arms at the first sample above the threshold. If the trace
//! then stays above the threshold for the given number of samples, one after
//! the other, an event is registered; after it the detector rests for a given
//! number of samples.
use super::Detector;
use crate::fixed::Real;
use crate::pulse_detection::iterators::event::detected;
use vstd::prelude::*;

verus! {

/// The settings of a [`ThresholdDetector`].
#[derive(Clone, Copy, Debug)]
pub struct ThresholdDuration {
    /// The value that the trace must exceed.
    pub threshold: Real,
    /// For how many samples in a row the trace must exceed it.
    pub duration: i32,
    /// For how many samples the detector rests after an event.
    pub cool_off: i32,
}

impl Default for ThresholdDuration {
    fn default() -> (r: Self)
        ensures
            r == (ThresholdDuration { threshold: 0, duration: 0, cool_off: 0 }),
    {
        ThresholdDuration { threshold: 0, duration: 0, cool_off: 0 }
    }
}

/// What an event of this detector says of its pulse.
#[derive(Clone, Copy, Debug, PartialEq)]
pub struct Data {
    /// The largest trace value from the arming to the event.
    pub pulse_height: Real,
}

impl Default for Data {
    fn default() -> (r: Self)
        ensures
            r == (Data { pulse_height: 0 }),
    {
        Data { pulse_height: 0 }
    }
}

/// An event of this detector: the time of the arming, and the height.
pub type ThresholdEvent = (Real, Data);

/// Where the detector stands between two samples.
#[derive(Clone, Copy, Debug, PartialEq)]
pub enum ThresholdState {
    /// The detector waits for a sample above the threshold.
    Idle,
    /// The trace has been above the threshold since `time_of_arming`, and has
    /// to stay there for `remaining` more samples.
    Armed { time_of_arming: Real, remaining: i32, max_value: Real },
    /// The detector rests for `remaining` more samples.
    Resting { remaining: i32 },
}

/// Detects pulses by the value of the trace.
#[derive(Clone, Copy, Debug)]
pub struct ThresholdDetector {
    /// The settings.
    pub trigger: ThresholdDuration,
    /// Where the detector stands.
    pub state: ThresholdState,
}

/// The larger of two scalars.
pub open spec fn larger(a: Real, b: Real) -> Real {
    if a < b {
        b
    } else {
        a
    }
}

impl ThresholdDetector {
    /// A detector that waits for its first sample above the threshold.
    pub open spec fn spec_new(trigger: ThresholdDuration) -> Self {
        ThresholdDetector { trigger, state: ThresholdState::Idle }
    }

    /// The detector just after it has registered an event.
    pub open spec fn rested(self) -> Self {
        ThresholdDetector {
            state: if self.trigger.cool_off <= 0 {
                ThresholdState::Idle
            } else {
                ThresholdState::Resting { remaining: self.trigger.cool_off }
            },
            ..self
        }
    }

    /// A detector that waits for its first sample above the threshold.
    pub fn new(trigger: &ThresholdDuration) -> (r: Self)
        ensures
            r == Self::spec_new(*trigger),
    {
        ThresholdDetector { trigger: *trigger, state: ThresholdState::Idle }
    }

    /// Puts the detector to rest after an event.
    fn rest(&mut self)
        ensures
            *final(self) == old(self).rested(),
    {
        if self.trigger.cool_off <= 0 {
            self.state = ThresholdState::Idle;
        } else {
            self.state = ThresholdState::Resting { remaining: self.trigger.cool_off };
        }
    }
}

impl Default for ThresholdDetector {
    fn default() -> (r: Self)
        ensures
            r == Self::spec_new(ThresholdDuration { threshold: 0, duration: 0, cool_off: 0 }),
    {
        Self::new(&ThresholdDuration::default())
    }
}

impl Detector for ThresholdDetector {
    type Value = Real;

    type Event = Data;

    /// | from | when | to | event |
    /// |---|---|---|---|
    /// | `Idle` | value > threshold, `duration` ≤ 1 | rest | this time, this value |
    /// | `Idle` | value > threshold, `duration` > 1 | `Armed`, `duration - 1` to go | |
    /// | `Armed` | value > threshold, 1 to go at most | rest | time of arming, largest value |
    /// | `Armed` | value > threshold, more to go | `Armed`, one less to go | |
    /// | `Armed` | value ≤ threshold | `Idle` | |
    /// | `Resting` | 1 to go at most | `Idle` | |
    /// | `Resting` | more to go | `Resting`, one less to go | |
    ///
    /// To rest is to be `Resting` for `cool_off` samples, or `Idle` if there are none.
    open spec fn spec_signal(self, time: Real, value: Real) -> (Self, Option<ThresholdEvent>) {
        match self.state {
            ThresholdState::Idle => {
                if value > self.trigger.threshold {
                    if self.trigger.duration <= 1 {
                        (self.rested(), Some((time, Data { pulse_height: value })))
                    } else {
                        (
                            ThresholdDetector {
                                state: ThresholdState::Armed {
                                    time_of_arming: time,
                                    remaining: (self.trigger.duration - 1) as i32,
                                    max_value: value,
                                },
                                ..self
                            },
                            None,
                        )
                    }
                } else {
                    (self, None)
                }
            },
            ThresholdState::Armed { time_of_arming, remaining, max_value } => {
                if value > self.trigger.threshold {
                    if remaining <= 1 {
                        (
                            self.rested(),
                            Some((time_of_arming, Data { pulse_height: larger(max_value, value) })),
                        )
                    } else {
                        (
                            ThresholdDetector {
                                state: ThresholdState::Armed {
                                    time_of_arming,
                                    remaining: (remaining - 1) as i32,
                                    max_value: larger(max_value, value),
                                },
                                ..self
                            },
                            None,
                        )
                    }
                } else {
                    (ThresholdDetector { state: ThresholdState::Idle, ..self }, None)
                }
            },
            ThresholdState::Resting { remaining } => {
                if remaining <= 1 {
                    (ThresholdDetector { state: ThresholdState::Idle, ..self }, None)
                } else {
                    (
                        ThresholdDetector {
                            state: ThresholdState::Resting { remaining: (remaining - 1) as i32 },
                            ..self
                        },
                        None,
                    )
                }
            },
        }
    }

    /// An arming that has not lasted long enough at the end of the trace is no event.
    open spec fn spec_finish(self) -> (Self, Option<ThresholdEvent>) {
        (self, None)
    }

    proof fn lemma_finish_is_final(self) {
    }

    fn signal(&mut self, time: Real, value: Real) -> (event: Option<ThresholdEvent>) {
        match self.state {
            ThresholdState::Idle => {
                if value > self.trigger.threshold {
                    if self.trigger.duration <= 1 {
                        self.rest();
                        Some((time, Data { pulse_height: value }))
                    } else {
                        self.state = ThresholdState::Armed {
                            time_of_arming: time,
                            remaining: self.trigger.duration - 1,
                            max_value: value,
                        };
                        None
                    }
                } else {
                    None
                }
            },
            ThresholdState::Armed { time_of_arming, remaining, max_value } => {
                if value > self.trigger.threshold {
                    let max_value = if max_value < value {
                        value
                    } else {
                        max_value
                    };
                    if remaining <= 1 {
                        self.rest();
                        Some((time_of_arming, Data { pulse_height: max_value }))
                    } else {
                        self.state = ThresholdState::Armed {
                            time_of_arming,
                            remaining: remaining - 1,
                            max_value,
                        };
                        None
                    }
                } else {
                    self.state = ThresholdState::Idle;
                    None
                }
            },
            ThresholdState::Resting { remaining } => {
                if remaining <= 1 {
                    self.state = ThresholdState::Idle;
                } else {
                    self.state = ThresholdState::Resting { remaining: remaining - 1 };
                }
                None
            },
        }
    }

    fn finish(&mut self) -> (event: Option<ThresholdEvent>) {
        None
    }
}

/// On an empty trace the detector finds no event, whatever state it is in.
pub proof fn lemma_empty_trace_gives_no_event(detector: ThresholdDetector)
    ensures
        detected(detector, Seq::empty()) == Seq::<ThresholdEvent>::empty(),
{
}

} // verus!
