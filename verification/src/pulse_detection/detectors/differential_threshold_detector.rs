//! A detector that watches the first difference of the trace.
//!
//! A detection begins when the difference rises to the begin threshold and
//! ends when it falls to the end threshold; each of the two may have to last
//! for a given time, and after a detection the detector may rest for a while.
use super::{elapsed, has_elapsed, Detector};
use crate::fixed::{real_sub, real_sub_spec, Real};
use crate::parameters::PeakHeightMode;
use crate::pulse_detection::datatype::RealArray;
use crate::pulse_detection::iterators::event::detected;
use vstd::prelude::*;

verus! {

/// The thresholds and durations of a [`DifferentialThresholdDetector`].
#[derive(Clone, Copy, Debug)]
pub struct DifferentialThresholdParameters {
    /// A detection begins when the difference is at least this.
    pub begin_threshold: Real,
    /// How long the difference must stay at or above `begin_threshold` for the detection to stand.
    pub begin_duration: Real,
    /// A detection ends when the difference is at most this.
    pub end_threshold: Real,
    /// How long the difference must stay at or below `end_threshold` for the detection to end.
    pub end_duration: Real,
    /// The least time between the end of one detection and the begin of the next.
    pub cool_off: Real,
}

impl Default for DifferentialThresholdParameters {
    fn default() -> (r: Self)
        ensures
            r == (DifferentialThresholdParameters {
                begin_threshold: 0,
                begin_duration: 0,
                end_threshold: 0,
                end_duration: 0,
                cool_off: 0,
            }),
    {
        DifferentialThresholdParameters {
            begin_threshold: 0,
            begin_duration: 0,
            end_threshold: 0,
            end_duration: 0,
            cool_off: 0,
        }
    }
}

/// What an event of this detector says of its pulse.
#[derive(Clone, Copy, Debug, PartialEq)]
pub struct Data {
    /// The trace value just before the detection began.
    pub base_height: Real,
    /// The height of the peak.
    pub peak_height: Real,
}

impl Default for Data {
    fn default() -> (r: Self)
        ensures
            r == (Data { base_height: 0, peak_height: 0 }),
    {
        Data { base_height: 0, peak_height: 0 }
    }
}

/// An event of this detector: the time of the steepest rise, and the heights.
pub type ThresholdEvent = (Real, Data);

impl Data {
    /// An event at `time` with the given heights.
    pub fn new_event(time: Real, base_height: Real, peak_height: Real) -> (r: (Real, Self))
        ensures
            r == (time, Data { base_height, peak_height }),
    {
        (time, Data { base_height, peak_height })
    }
}

/// Where the detector stands between two trace points.
#[derive(Clone, Copy, Debug, PartialEq)]
pub enum DetectorState {
    /// No detection is under way.
    Waiting,
    /// The difference has been at or above `begin_threshold` for less than `begin_duration`.
    Beginning { time_begun: Real },
    /// A detection is under way.
    Detected,
    /// The difference has been at or below `end_threshold` for less than `end_duration`.
    Ending { time_ended: Real },
    /// A detection has ended less than `cool_off` ago.
    CoolingDown { time_ended: Real },
}

/// The event of a detection that is still under way.
#[derive(Clone, Copy, Debug, PartialEq)]
pub struct PartialEvent {
    /// The trace value just before the detection began.
    pub base_height: Real,
    /// The time of the steepest rise seen so far.
    pub time_of_event: Real,
    /// The height of the peak, as far as it is known.
    pub peak_height: Real,
    /// The value and difference at the steepest rise seen so far.
    pub trace_array_at_max_deriv: RealArray<2>,
}

impl PartialEvent {
    /// The event after a look at one more trace point: a strictly steeper
    /// rise replaces the one held, so that of equal rises the first stays.
    pub open spec fn spec_update_max_derivative(self, time: Real, value: RealArray<2>) -> Self {
        if self.trace_array_at_max_deriv.at(1) < value.at(1) {
            PartialEvent { trace_array_at_max_deriv: value, time_of_event: time, ..self }
        } else {
            self
        }
    }

    /// The event with the trace value before `value` as its peak height.
    pub open spec fn spec_set_peak_height_to_last_value(self, value: RealArray<2>) -> Self {
        PartialEvent { peak_height: real_sub_spec(value.at(0), value.at(1)), ..self }
    }

    /// The event with its peak height raised to `value`, if that is higher.
    pub open spec fn spec_set_peak_height_to_max_value(self, value: Real) -> Self {
        if self.peak_height < value {
            PartialEvent { peak_height: value, ..self }
        } else {
            self
        }
    }

    /// The event after one more trace point.
    pub open spec fn spec_update(
        self,
        peak_height_mode: PeakHeightMode,
        time: Real,
        value: RealArray<2>,
    ) -> Self {
        let seen = self.spec_update_max_derivative(time, value);
        match peak_height_mode {
            PeakHeightMode::ValueAtEndTrigger => seen.spec_set_peak_height_to_last_value(value),
            PeakHeightMode::MaxValue => seen.spec_set_peak_height_to_max_value(value.at(0)),
        }
    }

    /// The finished event.
    pub open spec fn spec_into_event(self) -> ThresholdEvent {
        (self.time_of_event, Data { base_height: self.base_height, peak_height: self.peak_height })
    }

    /// Takes one more trace point into the event.
    pub fn update(&mut self, peak_height_mode: PeakHeightMode, time: Real, value: RealArray<2>)
        ensures
            *final(self) == old(self).spec_update(peak_height_mode, time, value),
    {
        self.update_max_derivative(time, value);
        match peak_height_mode {
            PeakHeightMode::ValueAtEndTrigger => self.set_peak_height_to_last_value(value),
            PeakHeightMode::MaxValue => self.set_peak_height_to_max_value(*value.index(0)),
        }
    }

    /// Moves the event to this trace point if the trace rises more steeply here.
    pub fn update_max_derivative(&mut self, time: Real, value: RealArray<2>)
        ensures
            *final(self) == old(self).spec_update_max_derivative(time, value),
    {
        if *self.trace_array_at_max_deriv.index(1) < *value.index(1) {
            self.trace_array_at_max_deriv = value;
            self.time_of_event = time;
        }
    }

    /// Sets the peak height to the trace value before `value`.
    pub fn set_peak_height_to_last_value(&mut self, value: RealArray<2>)
        ensures
            *final(self) == old(self).spec_set_peak_height_to_last_value(value),
    {
        self.peak_height = real_sub(*value.index(0), *value.index(1));
    }

    /// Raises the peak height to `value`, if that is higher.
    pub fn set_peak_height_to_max_value(&mut self, value: Real)
        ensures
            *final(self) == old(self).spec_set_peak_height_to_max_value(value),
    {
        if self.peak_height < value {
            self.peak_height = value;
        }
    }

    /// Finishes the event.
    pub fn into_event(self) -> (r: ThresholdEvent)
        ensures
            r == self.spec_into_event(),
    {
        Data::new_event(self.time_of_event, self.base_height, self.peak_height)
    }
}

/// Detects pulses by the first difference of the trace.
#[derive(Clone, Copy, Debug)]
pub struct DifferentialThresholdDetector {
    /// The thresholds and durations.
    pub parameters: DifferentialThresholdParameters,
    /// How the height of a peak is found.
    pub peak_height_mode: PeakHeightMode,
    /// Where the detector stands.
    pub state: DetectorState,
    /// The event of the detection under way, until it has been handed out.
    pub partial_event: Option<PartialEvent>,
}

/// The event that a detection begins with at the trace point `(time, value)`.
pub open spec fn new_partial_event(time: Real, value: RealArray<2>) -> PartialEvent {
    PartialEvent {
        time_of_event: time,
        trace_array_at_max_deriv: value,
        base_height: real_sub_spec(value.at(0), value.at(1)),
        peak_height: value.at(0),
    }
}

/// Whether a detection is over in this state, so that its event can be handed out.
pub open spec fn is_completing(state: DetectorState) -> bool {
    state is Ending || state is CoolingDown || state is Waiting
}

/// The state that follows the end of a detection at `time`.
pub open spec fn state_after_end(parameters: DifferentialThresholdParameters, time: Real) -> DetectorState {
    if parameters.cool_off == 0 {
        DetectorState::Waiting
    } else {
        DetectorState::CoolingDown { time_ended: time }
    }
}

/// The detector as a detection begins at the trace point `(time, value)`.
pub open spec fn detection_begun(
    detector: DifferentialThresholdDetector,
    time: Real,
    value: RealArray<2>,
) -> DifferentialThresholdDetector {
    DifferentialThresholdDetector {
        state: if detector.parameters.begin_duration == 0 {
            DetectorState::Detected
        } else {
            DetectorState::Beginning { time_begun: time }
        },
        partial_event: Some(new_partial_event(time, value)),
        ..detector
    }
}

impl DifferentialThresholdDetector {
    /// A detector that waits for its first detection.
    pub open spec fn spec_new(
        parameters: DifferentialThresholdParameters,
        peak_height_mode: PeakHeightMode,
    ) -> Self {
        DifferentialThresholdDetector {
            parameters,
            peak_height_mode,
            state: DetectorState::Waiting,
            partial_event: None,
        }
    }

    /// The detector after the state transition that the trace point `(time, value)` causes.
    ///
    /// | from | when | to |
    /// |---|---|---|
    /// | `Waiting` | difference ≥ `begin_threshold` | `Beginning`, or `Detected` if `begin_duration` is zero |
    /// | `Beginning` | `begin_duration` has passed | `Detected` |
    /// | `Beginning` | else, difference < `begin_threshold` | `Waiting`, and the event is dropped |
    /// | `Detected` | difference ≤ `end_threshold` | `Ending`, or if `end_duration` is zero what follows an end |
    /// | `Ending` | `end_duration` has passed | what follows an end |
    /// | `Ending` | else, difference > `end_threshold` | `Detected` |
    /// | `CoolingDown` | `cool_off` has passed | `Waiting` |
    ///
    /// What follows an end is `CoolingDown`, or `Waiting` if `cool_off` is zero.
    pub open spec fn spec_modify_state(self, time: Real, value: RealArray<2>) -> Self {
        let p = self.parameters;
        match self.state {
            DetectorState::Waiting => {
                if value.at(1) >= p.begin_threshold {
                    detection_begun(self, time, value)
                } else {
                    self
                }
            },
            DetectorState::Beginning { time_begun } => {
                if has_elapsed(time_begun, time, p.begin_duration) {
                    DifferentialThresholdDetector { state: DetectorState::Detected, ..self }
                } else if value.at(1) < p.begin_threshold {
                    DifferentialThresholdDetector {
                        state: DetectorState::Waiting,
                        partial_event: None,
                        ..self
                    }
                } else {
                    self
                }
            },
            DetectorState::Detected => {
                if value.at(1) <= p.end_threshold {
                    if p.end_duration == 0 {
                        DifferentialThresholdDetector { state: state_after_end(p, time), ..self }
                    } else {
                        DifferentialThresholdDetector {
                            state: DetectorState::Ending { time_ended: time },
                            ..self
                        }
                    }
                } else {
                    self
                }
            },
            DetectorState::Ending { time_ended } => {
                if has_elapsed(time_ended, time, p.end_duration) {
                    DifferentialThresholdDetector { state: state_after_end(p, time), ..self }
                } else if value.at(1) > p.end_threshold {
                    DifferentialThresholdDetector { state: DetectorState::Detected, ..self }
                } else {
                    self
                }
            },
            DetectorState::CoolingDown { time_ended } => {
                if has_elapsed(time_ended, time, p.cool_off) {
                    DifferentialThresholdDetector { state: DetectorState::Waiting, ..self }
                } else {
                    self
                }
            },
        }
    }

    /// The detector after its completed event, if it has one, was taken out.
    pub open spec fn spec_try_take_completed_event(self) -> (Self, Option<PartialEvent>) {
        if is_completing(self.state) {
            (DifferentialThresholdDetector { partial_event: None, ..self }, self.partial_event)
        } else {
            (self, None)
        }
    }

    /// A detector that waits for its first detection.
    pub fn new(parameters: &DifferentialThresholdParameters, peak_height_mode: PeakHeightMode) -> (r:
        Self)
        ensures
            r == Self::spec_new(*parameters, peak_height_mode),
    {
        Self {
            parameters: *parameters,
            peak_height_mode,
            state: DetectorState::Waiting,
            partial_event: None,
        }
    }

    /// Begins the event of a detection at the trace point `(time, value)`.
    pub fn init_new_partial_event(&mut self, time: Real, value: RealArray<2>)
        ensures
            *final(self) == (DifferentialThresholdDetector {
                partial_event: Some(new_partial_event(time, value)),
                ..*old(self)
            }),
    {
        self.partial_event = Some(
            PartialEvent {
                time_of_event: time,
                trace_array_at_max_deriv: value,
                base_height: real_sub(*value.index(0), *value.index(1)),
                peak_height: *value.index(0),
            },
        );
    }

    /// Makes the state transition that the trace point `(time, value)` causes.
    pub fn modify_state(&mut self, time: Real, value: RealArray<2>)
        ensures
            *final(self) == old(self).spec_modify_state(time, value),
    {
        match self.state {
            DetectorState::Waiting => {
                if *value.index(1) >= self.parameters.begin_threshold {
                    self.init_new_partial_event(time, value);
                    if self.parameters.begin_duration == 0 {
                        self.state = DetectorState::Detected;
                    } else {
                        self.state = DetectorState::Beginning { time_begun: time };
                    }
                }
            },
            DetectorState::Beginning { time_begun } => {
                if elapsed(time_begun, time, self.parameters.begin_duration) {
                    self.state = DetectorState::Detected;
                } else if *value.index(1) < self.parameters.begin_threshold {
                    self.partial_event = None;
                    self.state = DetectorState::Waiting;
                }
            },
            DetectorState::Detected => {
                if *value.index(1) <= self.parameters.end_threshold {
                    if self.parameters.end_duration == 0 {
                        if self.parameters.cool_off == 0 {
                            self.state = DetectorState::Waiting;
                        } else {
                            self.state = DetectorState::CoolingDown { time_ended: time };
                        }
                    } else {
                        self.state = DetectorState::Ending { time_ended: time };
                    }
                }
            },
            DetectorState::Ending { time_ended } => {
                if elapsed(time_ended, time, self.parameters.end_duration) {
                    if self.parameters.cool_off == 0 {
                        self.state = DetectorState::Waiting;
                    } else {
                        self.state = DetectorState::CoolingDown { time_ended: time };
                    }
                } else if *value.index(1) > self.parameters.end_threshold {
                    self.state = DetectorState::Detected;
                }
            },
            DetectorState::CoolingDown { time_ended } => {
                if elapsed(time_ended, time, self.parameters.cool_off) {
                    self.state = DetectorState::Waiting;
                }
            },
        }
    }

    /// Takes the event out if the detection is over.
    pub fn try_take_completed_event(&mut self) -> (r: Option<PartialEvent>)
        ensures
            (*final(self), r) == old(self).spec_try_take_completed_event(),
    {
        match self.state {
            DetectorState::Ending { .. } | DetectorState::CoolingDown { .. } | DetectorState::Waiting => {
                let taken = self.partial_event;
                self.partial_event = None;
                taken
            },
            _ => None,
        }
    }
}

impl Default for DifferentialThresholdDetector {
    fn default() -> (r: Self)
        ensures
            r == Self::spec_new(
                DifferentialThresholdParameters {
                    begin_threshold: 0,
                    begin_duration: 0,
                    end_threshold: 0,
                    end_duration: 0,
                    cool_off: 0,
                },
                PeakHeightMode::MaxValue,
            ),
    {
        Self::new(&DifferentialThresholdParameters::default(), PeakHeightMode::default())
    }
}

impl Detector for DifferentialThresholdDetector {
    type Value = RealArray<2>;

    type Event = Data;

    /// The state moves first. If the detection is over and its event has not
    /// been handed out, the event takes this trace point in and is handed out;
    /// else an event under way takes this trace point in.
    open spec fn spec_signal(self, time: Real, value: RealArray<2>) -> (Self, Option<ThresholdEvent>) {
        let moved = self.spec_modify_state(time, value);
        let (taken, completed) = moved.spec_try_take_completed_event();
        match completed {
            Some(event) => (
                taken,
                Some(event.spec_update(self.peak_height_mode, time, value).spec_into_event()),
            ),
            None => match taken.partial_event {
                Some(partial_event) => (
                    DifferentialThresholdDetector {
                        partial_event: Some(
                            partial_event.spec_update(self.peak_height_mode, time, value),
                        ),
                        ..taken
                    },
                    None,
                ),
                None => (taken, None),
            },
        }
    }

    /// An event under way at the end of the trace is dropped.
    open spec fn spec_finish(self) -> (Self, Option<ThresholdEvent>) {
        (DifferentialThresholdDetector { partial_event: None, ..self }, None)
    }

    proof fn lemma_finish_is_final(self) {
    }

    fn signal(&mut self, time: Real, value: RealArray<2>) -> (event: Option<ThresholdEvent>) {
        self.modify_state(time, value);
        match self.try_take_completed_event() {
            Some(mut event) => {
                event.update(self.peak_height_mode, time, value);
                Some(event.into_event())
            },
            None => {
                match self.partial_event {
                    Some(mut partial_event) => {
                        partial_event.update(self.peak_height_mode, time, value);
                        self.partial_event = Some(partial_event);
                    },
                    None => {},
                }
                None
            },
        }
    }

    fn finish(&mut self) -> (event: Option<ThresholdEvent>) {
        self.partial_event = None;
        None
    }
}

/// The event of a detection that began at the trace point `first` and has
/// taken in the trace points `rest` since.
pub open spec fn event_through(
    peak_height_mode: PeakHeightMode,
    first: (Real, RealArray<2>),
    rest: Seq<(Real, RealArray<2>)>,
) -> PartialEvent
    decreases rest.len(),
{
    if rest.len() == 0 {
        new_partial_event(first.0, first.1)
    } else {
        event_through(peak_height_mode, first, rest.drop_last()).spec_update(
            peak_height_mode,
            rest.last().0,
            rest.last().1,
        )
    }
}

/// The place of the steepest rise among some trace points, and of equal ones the first.
pub open spec fn first_steepest(points: Seq<(Real, RealArray<2>)>) -> int
    decreases points.len(),
{
    if points.len() <= 1 {
        0
    } else {
        let before = first_steepest(points.drop_last());
        if points[before].1.at(1) < points.last().1.at(1) {
            points.len() - 1
        } else {
            before
        }
    }
}

/// The first steepest rise is a rise that none is steeper than, and that none
/// before it is as steep as.
pub proof fn lemma_first_steepest(points: Seq<(Real, RealArray<2>)>)
    requires
        points.len() > 0,
    ensures
        0 <= first_steepest(points) < points.len(),
        forall|j: int|
            0 <= j < points.len() ==> (#[trigger] points[j]).1.at(1) <= points[first_steepest(
                points,
            )].1.at(1),
        forall|j: int|
            0 <= j < first_steepest(points) ==> (#[trigger] points[j]).1.at(1)
                < points[first_steepest(points)].1.at(1),
    decreases points.len(),
{
    if points.len() > 1 {
        let shorter = points.drop_last();
        lemma_first_steepest(shorter);
        let before = first_steepest(shorter);
        assert(shorter[before] == points[before]);
        assert forall|j: int| 0 <= j < points.len() implies (#[trigger] points[j]).1.at(1)
            <= points[first_steepest(points)].1.at(1) by {
            if j < shorter.len() {
                assert(shorter[j] == points[j]);
            }
        }
        assert forall|j: int| 0 <= j < first_steepest(points) implies (#[trigger] points[j]).1.at(
            1,
        ) < points[first_steepest(points)].1.at(1) by {
            assert(shorter[j] == points[j]);
        }
    }
}

/// The event of a detection stands at the time of the steepest rise among
/// the trace points of the detection, and of equal ones at the first; it
/// holds the value and difference there; and its base is the trace value
/// before the detection began.
pub proof fn lemma_event_stands_at_first_steepest_rise(
    peak_height_mode: PeakHeightMode,
    first: (Real, RealArray<2>),
    rest: Seq<(Real, RealArray<2>)>,
)
    ensures
        ({
            let points = seq![first] + rest;
            let event = event_through(peak_height_mode, first, rest);
            &&& event.time_of_event == points[first_steepest(points)].0
            &&& event.trace_array_at_max_deriv == points[first_steepest(points)].1
            &&& event.base_height == real_sub_spec(first.1.at(0), first.1.at(1))
        }),
    decreases rest.len(),
{
    let points = seq![first] + rest;
    if rest.len() > 0 {
        let shorter = seq![first] + rest.drop_last();
        lemma_event_stands_at_first_steepest_rise(peak_height_mode, first, rest.drop_last());
        lemma_first_steepest(shorter);
        assert(points.drop_last() =~= shorter);
        assert(points.last() == rest.last());
        assert(points[first_steepest(shorter)] == shorter[first_steepest(shorter)]);
    } else {
        assert(points =~= seq![first]);
        assert(points[0] == first);
    }
}

/// Whether the trace point `(time, value)` takes the detector out of
/// `Detected`: into `Ending`, `CoolingDown` or `Waiting`.
pub open spec fn ends_detection(
    detector: DifferentialThresholdDetector,
    time: Real,
    value: RealArray<2>,
) -> bool {
    detector.state is Detected && is_completing(detector.spec_modify_state(time, value).state)
}

/// How many of the trace points `input` take the detector out of `Detected`.
pub open spec fn endings(
    detector: DifferentialThresholdDetector,
    input: Seq<(Real, RealArray<2>)>,
) -> nat
    decreases input.len(),
{
    if input.len() == 0 {
        0
    } else {
        let after = detector.spec_signal(input[0].0, input[0].1).0;
        let rest = endings(after, input.skip(1));
        if ends_detection(detector, input[0].0, input[0].1) {
            rest + 1
        } else {
            rest
        }
    }
}

/// How many of the trace points `input` take the detector out of `Detected`
/// when its event has been handed out before: the detection had ended, and
/// was taken up again from `Ending`.
pub open spec fn resumed_endings(
    detector: DifferentialThresholdDetector,
    input: Seq<(Real, RealArray<2>)>,
) -> nat
    decreases input.len(),
{
    if input.len() == 0 {
        0
    } else {
        let after = detector.spec_signal(input[0].0, input[0].1).0;
        let rest = resumed_endings(after, input.skip(1));
        if ends_detection(detector, input[0].0, input[0].1) && detector.partial_event is None {
            rest + 1
        } else {
            rest
        }
    }
}

impl DifferentialThresholdDetector {
    /// No event is held where none is under way: every detector that `new`
    /// made is so, whatever it has been given since.
    pub open spec fn is_consistent(self) -> bool {
        is_completing(self.state) ==> self.partial_event is None
    }

    /// A detection under way holds its event, and none is about to end.
    pub open spec fn is_unbroken(self) -> bool {
        &&& self.is_consistent()
        &&& !(self.state is Ending)
        &&& self.state is Beginning || self.state is Detected ==> self.partial_event is Some
    }
}

/// A new detector is consistent, and a consistent detector stays so.
pub proof fn lemma_stays_consistent(
    detector: DifferentialThresholdDetector,
    time: Real,
    value: RealArray<2>,
)
    ensures
        DifferentialThresholdDetector::spec_new(
            detector.parameters,
            detector.peak_height_mode,
        ).is_consistent(),
        detector.spec_signal(time, value).0.is_consistent(),
{
}

/// On an empty trace the detector finds no event, whatever state it is in.
pub proof fn lemma_empty_trace_gives_no_event(detector: DifferentialThresholdDetector)
    ensures
        detected(detector, Seq::empty()) == Seq::<ThresholdEvent>::empty(),
{
}

/// The number of events is the number of times the detector leaves
/// `Detected`, less the times it does so with its event handed out before.
pub proof fn lemma_one_event_for_each_first_ending(
    detector: DifferentialThresholdDetector,
    input: Seq<(Real, RealArray<2>)>,
)
    requires
        detector.is_consistent(),
    ensures
        detected(detector, input).len() + resumed_endings(detector, input) == endings(
            detector,
            input,
        ),
    decreases input.len(),
{
    if input.len() > 0 {
        let after = detector.spec_signal(input[0].0, input[0].1).0;
        lemma_stays_consistent(detector, input[0].0, input[0].1);
        lemma_one_event_for_each_first_ending(after, input.skip(1));
    }
}

/// Where no detection is taken up again after it had ended, the number of
/// events is the number of times the detector leaves `Detected`.
pub proof fn lemma_one_event_for_each_ending(
    detector: DifferentialThresholdDetector,
    input: Seq<(Real, RealArray<2>)>,
)
    requires
        detector.is_consistent(),
        resumed_endings(detector, input) == 0,
    ensures
        detected(detector, input).len() == endings(detector, input),
{
    lemma_one_event_for_each_first_ending(detector, input);
}

/// Without an end duration no detection is taken up again.
pub proof fn lemma_no_resumption_without_end_duration(
    detector: DifferentialThresholdDetector,
    input: Seq<(Real, RealArray<2>)>,
)
    requires
        detector.is_unbroken(),
        detector.parameters.end_duration == 0,
    ensures
        resumed_endings(detector, input) == 0,
    decreases input.len(),
{
    if input.len() > 0 {
        let after = detector.spec_signal(input[0].0, input[0].1).0;
        assert(after.is_unbroken());
        assert(after.parameters == detector.parameters);
        lemma_no_resumption_without_end_duration(after, input.skip(1));
    }
}

} // verus!
