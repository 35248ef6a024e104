//! A detector that follows a pulse through its rise, its peak and its fall.
//!
//! The detector watches the first difference of the trace. A pulse begins when
//! the difference has been above the onset threshold for the given duration;
//! it is past its peak when the difference has been below the fall threshold
//! for that long; and it has ended when the difference has been above the
//! termination threshold for that long. Each of the
//! three gives an event, and the assembler makes one pulse of the three.
use super::{elapsed, has_elapsed, Assembler, Detector};
use crate::fixed::Real;
use crate::pulse_detection::datatype::RealArray;
use crate::pulse_detection::pulse::{Pulse, TimeValue, TimeValueOptional};
use crate::pulse_detection::iterators::assembler::assembled;
use crate::pulse_detection::iterators::event::detected;
use crate::pulse_detection::iterators::times_never_fall;
use vstd::prelude::*;

verus! {

/// Which part of a pulse an event stands for.
#[derive(Clone, Copy, Debug, PartialEq, Eq, Structural)]
pub enum Class {
    /// The pulse begins to rise.
    Onset,
    /// The pulse is past its peak.
    Peak,
    /// The pulse has ended.
    End,
}

/// What an event of this detector says of its pulse.
#[derive(Clone, Copy, Debug, PartialEq)]
pub struct Data {
    /// The part of the pulse.
    pub class: Class,
    /// The trace value that belongs to the event, if it is known.
    pub value: Option<Real>,
    /// The steepest rise before a peak, or the sharpest fall before an end.
    pub superlative: Option<TimeValue<RealArray<2>>>,
}

/// An event of this detector.
pub type MuonEvent = (Real, Data);

/// The part of a pulse that the detector is in.
#[derive(Clone, Copy, Debug, PartialEq, Eq, Structural)]
pub enum Phase {
    /// No pulse is under way.
    Flat,
    /// A pulse has begun and has not passed its peak.
    Rising,
    /// A pulse is past its peak and has not ended.
    Falling,
}

/// The extremes of a pulse, as far as it has been seen.
#[derive(Clone, Copy, Debug, PartialEq)]
pub struct Record {
    /// Where the difference was largest, and of equal ones the first.
    pub steepest_rise: TimeValue<RealArray<2>>,
    /// Where the difference was smallest, and of equal ones the first.
    pub sharpest_fall: TimeValue<RealArray<2>>,
    /// Where the value was largest, and of equal ones the first.
    pub peak: TimeValue<Real>,
}

/// The record of a pulse of which only the trace point `(time, value)` has been seen.
pub open spec fn record_at(time: Real, value: RealArray<2>) -> Record {
    Record {
        steepest_rise: TimeValue { time, value },
        sharpest_fall: TimeValue { time, value },
        peak: TimeValue { time, value: value.at(0) },
    }
}

/// The record after the trace point `(time, value)` was seen too.
pub open spec fn record_with(record: Option<Record>, time: Real, value: RealArray<2>) -> Record {
    match record {
        None => record_at(time, value),
        Some(held) => Record {
            steepest_rise: if held.steepest_rise.value.at(1) < value.at(1) {
                TimeValue { time, value }
            } else {
                held.steepest_rise
            },
            sharpest_fall: if value.at(1) < held.sharpest_fall.value.at(1) {
                TimeValue { time, value }
            } else {
                held.sharpest_fall
            },
            peak: if held.peak.value < value.at(0) {
                TimeValue { time, value: value.at(0) }
            } else {
                held.peak
            },
        },
    }
}

/// Takes the trace point `(time, value)` into a record.
pub fn update_record(record: Option<Record>, time: Real, value: RealArray<2>) -> (r: Record)
    ensures
        r == record_with(record, time, value),
{
    let here = TimeValue { time, value };
    match record {
        None => Record {
            steepest_rise: here,
            sharpest_fall: here,
            peak: TimeValue { time, value: *value.index(0) },
        },
        Some(held) => Record {
            steepest_rise: if *held.steepest_rise.value.index(1) < *value.index(1) {
                here
            } else {
                held.steepest_rise
            },
            sharpest_fall: if *value.index(1) < *held.sharpest_fall.value.index(1) {
                here
            } else {
                held.sharpest_fall
            },
            peak: if held.peak.value < *value.index(0) {
                TimeValue { time, value: *value.index(0) }
            } else {
                held.peak
            },
        },
    }
}

/// Detects the onset, the peak and the end of pulses.
#[derive(Clone, Copy, Debug)]
pub struct AdvancedMuonDetector {
    /// The difference above which a pulse begins to rise.
    pub onset: Real,
    /// The difference below which a pulse is past its peak.
    pub fall: Real,
    /// The difference above which a pulse has ended.
    pub termination: Real,
    /// How long each of the three must last to count.
    pub duration: Real,
    /// The part of a pulse that the detector is in.
    pub phase: Phase,
    /// The trace point since which the condition for the next part has held.
    pub candidate: Option<TimeValue<Real>>,
    /// The extremes of the pulse under way.
    pub record: Option<Record>,
}

impl AdvancedMuonDetector {
    /// A detector that waits for its first pulse.
    pub open spec fn spec_new(onset: Real, fall: Real, termination: Real, duration: Real) -> Self {
        AdvancedMuonDetector {
            onset,
            fall,
            termination,
            duration,
            phase: Phase::Flat,
            candidate: None,
            record: None,
        }
    }

    /// Whether the difference `difference` meets the condition for the next part of a pulse.
    pub open spec fn condition_holds(self, difference: Real) -> bool {
        match self.phase {
            Phase::Flat => difference > self.onset,
            Phase::Rising => difference < self.fall,
            Phase::Falling => difference > self.termination,
        }
    }

    /// A detector that waits for its first pulse.
    pub fn new(onset: Real, fall: Real, termination: Real, duration: Real) -> (r: Self)
        ensures
            r == Self::spec_new(onset, fall, termination, duration),
    {
        AdvancedMuonDetector {
            onset,
            fall,
            termination,
            duration,
            phase: Phase::Flat,
            candidate: None,
            record: None,
        }
    }
}

impl Default for AdvancedMuonDetector {
    fn default() -> (r: Self)
        ensures
            r == Self::spec_new(0, 0, 0, 0),
    {
        Self::new(0, 0, 0, 0)
    }
}

impl Detector for AdvancedMuonDetector {
    type Value = RealArray<2>;

    type Event = Data;

    /// While no pulse is under way and the onset condition fails, nothing is
    /// kept. Else the trace point goes into the record of the pulse. If the
    /// condition for the next part fails, the wait for it begins anew. If it
    /// holds, it has held since the candidate point, or since this one if
    /// there is none; once it has held for `duration` the next part begins:
    ///
    /// | part that ends | event | time and value of the event | superlative |
    /// |---|---|---|---|
    /// | `Flat` | `Onset` | those of the candidate point | none |
    /// | `Rising` | `Peak` | those of the largest value in the record | the steepest rise |
    /// | `Falling` | `End` | those of the candidate point | the sharpest fall |
    ///
    /// The record of a pulse ends with the pulse.
    open spec fn spec_signal(self, time: Real, value: RealArray<2>) -> (Self, Option<MuonEvent>) {
        let holds = self.condition_holds(value.at(1));
        if self.phase is Flat && !holds {
            (AdvancedMuonDetector { candidate: None, record: None, ..self }, None)
        } else {
            let record = record_with(self.record, time, value);
            let since = match self.candidate {
                Some(candidate) => candidate,
                None => TimeValue { time, value: value.at(0) },
            };
            if !holds {
                (AdvancedMuonDetector { candidate: None, record: Some(record), ..self }, None)
            } else if !has_elapsed(since.time, time, self.duration) {
                (
                    AdvancedMuonDetector { candidate: Some(since), record: Some(record), ..self },
                    None,
                )
            } else {
                match self.phase {
                    Phase::Flat => (
                        AdvancedMuonDetector {
                            phase: Phase::Rising,
                            candidate: None,
                            record: Some(record),
                            ..self
                        },
                        Some(
                            (
                                since.time,
                                Data {
                                    class: Class::Onset,
                                    value: Some(since.value),
                                    superlative: None,
                                },
                            ),
                        ),
                    ),
                    Phase::Rising => (
                        AdvancedMuonDetector {
                            phase: Phase::Falling,
                            candidate: None,
                            record: Some(record),
                            ..self
                        },
                        Some(
                            (
                                record.peak.time,
                                Data {
                                    class: Class::Peak,
                                    value: Some(record.peak.value),
                                    superlative: Some(record.steepest_rise),
                                },
                            ),
                        ),
                    ),
                    Phase::Falling => (
                        AdvancedMuonDetector {
                            phase: Phase::Flat,
                            candidate: None,
                            record: None,
                            ..self
                        },
                        Some(
                            (
                                since.time,
                                Data {
                                    class: Class::End,
                                    value: Some(since.value),
                                    superlative: Some(record.sharpest_fall),
                                },
                            ),
                        ),
                    ),
                }
            }
        }
    }

    /// A pulse under way at the end of the trace is no pulse.
    open spec fn spec_finish(self) -> (Self, Option<MuonEvent>) {
        (self, None)
    }

    proof fn lemma_finish_is_final(self) {
    }

    fn signal(&mut self, time: Real, value: RealArray<2>) -> (event: Option<MuonEvent>) {
        let difference = *value.index(1);
        let holds = match self.phase {
            Phase::Flat => difference > self.onset,
            Phase::Rising => difference < self.fall,
            Phase::Falling => difference > self.termination,
        };
        if !holds {
            self.candidate = None;
            match self.phase {
                Phase::Flat => {
                    self.record = None;
                },
                _ => {
                    self.record = Some(update_record(self.record, time, value));
                },
            }
            return None;
        }
        let record = update_record(self.record, time, value);
        let since = match self.candidate {
            Some(candidate) => candidate,
            None => TimeValue { time, value: *value.index(0) },
        };
        if !elapsed(since.time, time, self.duration) {
            self.candidate = Some(since);
            self.record = Some(record);
            return None;
        }
        self.candidate = None;
        match self.phase {
            Phase::Flat => {
                self.phase = Phase::Rising;
                self.record = Some(record);
                Some(
                    (
                        since.time,
                        Data { class: Class::Onset, value: Some(since.value), superlative: None },
                    ),
                )
            },
            Phase::Rising => {
                self.phase = Phase::Falling;
                self.record = Some(record);
                Some(
                    (
                        record.peak.time,
                        Data {
                            class: Class::Peak,
                            value: Some(record.peak.value),
                            superlative: Some(record.steepest_rise),
                        },
                    ),
                )
            },
            Phase::Falling => {
                self.phase = Phase::Flat;
                self.record = None;
                Some(
                    (
                        since.time,
                        Data {
                            class: Class::End,
                            value: Some(since.value),
                            superlative: Some(record.sharpest_fall),
                        },
                    ),
                )
            },
        }
    }

    fn finish(&mut self) -> (event: Option<MuonEvent>) {
        None
    }
}

/// Where the assembler stands between two events.
#[derive(Clone, Copy, Debug, PartialEq)]
pub enum AssemblerMode {
    /// The assembler waits for the onset of a pulse.
    Waiting,
    /// The assembler has the onset of a pulse and waits for its peak.
    Rising { start: MuonEvent },
    /// The assembler has the onset and the peak of a pulse and waits for its end.
    Falling { start: MuonEvent, peak: MuonEvent },
}

/// Makes one pulse of an onset, the peak that follows it and the end that follows the peak.
#[derive(Clone, Copy, Debug)]
pub struct AdvancedMuonAssembler {
    /// Where the assembler stands.
    pub mode: AssemblerMode,
}

/// A time and value of which either both are there or none.
pub open spec fn optional<T>(source: Option<TimeValue<T>>) -> TimeValueOptional<T> {
    match source {
        Some(time_value) => TimeValueOptional {
            time: Some(time_value.time),
            value: Some(time_value.value),
        },
        None => TimeValueOptional { time: None, value: None },
    }
}

/// The pulse of an onset, a peak and an end. Where the peak's event has no
/// value, the time of the steepest rise stands for the time of the peak.
pub open spec fn pulse_of(start: MuonEvent, peak: MuonEvent, end: MuonEvent) -> Pulse {
    Pulse {
        start: TimeValueOptional { time: Some(start.0), value: start.1.value },
        end: TimeValueOptional { time: Some(end.0), value: end.1.value },
        peak: TimeValueOptional {
            time: if peak.1.value is Some {
                Some(peak.0)
            } else {
                optional(peak.1.superlative).time
            },
            value: peak.1.value,
        },
        steepest_rise: optional(peak.1.superlative),
        sharpest_fall: optional(end.1.superlative),
    }
}

/// Turns a time and value that may be missing as a whole into one of which each part may be.
fn make_optional<T>(source: Option<TimeValue<T>>) -> (r: TimeValueOptional<T>)
    ensures
        r == optional(source),
{
    match source {
        Some(time_value) => TimeValueOptional {
            time: Some(time_value.time),
            value: Some(time_value.value),
        },
        None => TimeValueOptional { time: None, value: None },
    }
}

impl AdvancedMuonAssembler {
    /// An assembler that waits for the onset of its first pulse.
    pub open spec fn spec_new() -> Self {
        AdvancedMuonAssembler { mode: AssemblerMode::Waiting }
    }

    /// An assembler that waits for the onset of its first pulse.
    pub fn new() -> (r: Self)
        ensures
            r == Self::spec_new(),
    {
        AdvancedMuonAssembler { mode: AssemblerMode::Waiting }
    }
}

impl Default for AdvancedMuonAssembler {
    fn default() -> (r: Self)
        ensures
            r == Self::spec_new(),
    {
        Self::new()
    }
}

impl Assembler for AdvancedMuonAssembler {
    type DetectorType = AdvancedMuonDetector;

    /// An event that is not the one waited for is passed over.
    open spec fn spec_assemble_pulses(self, source: MuonEvent) -> (Self, Option<Pulse>) {
        match self.mode {
            AssemblerMode::Waiting => {
                if source.1.class is Onset {
                    (AdvancedMuonAssembler { mode: AssemblerMode::Rising { start: source } }, None)
                } else {
                    (self, None)
                }
            },
            AssemblerMode::Rising { start } => {
                if source.1.class is Peak {
                    (
                        AdvancedMuonAssembler {
                            mode: AssemblerMode::Falling { start, peak: source },
                        },
                        None,
                    )
                } else {
                    (self, None)
                }
            },
            AssemblerMode::Falling { start, peak } => {
                if source.1.class is End {
                    (
                        AdvancedMuonAssembler { mode: AssemblerMode::Waiting },
                        Some(pulse_of(start, peak, source)),
                    )
                } else {
                    (self, None)
                }
            },
        }
    }

    fn assemble_pulses(&mut self, source: MuonEvent) -> (pulse: Option<Pulse>) {
        match self.mode {
            AssemblerMode::Waiting => {
                match source.1.class {
                    Class::Onset => {
                        self.mode = AssemblerMode::Rising { start: source };
                    },
                    _ => {},
                }
                None
            },
            AssemblerMode::Rising { start } => {
                match source.1.class {
                    Class::Peak => {
                        self.mode = AssemblerMode::Falling { start, peak: source };
                    },
                    _ => {},
                }
                None
            },
            AssemblerMode::Falling { start, peak } => {
                match source.1.class {
                    Class::End => {
                        self.mode = AssemblerMode::Waiting;
                        let steepest_rise = make_optional(peak.1.superlative);
                        Some(
                            Pulse {
                                start: TimeValueOptional {
                                    time: Some(start.0),
                                    value: start.1.value,
                                },
                                end: TimeValueOptional { time: Some(source.0), value: source.1.value },
                                peak: TimeValueOptional {
                                    time: if peak.1.value.is_some() {
                                        Some(peak.0)
                                    } else {
                                        steepest_rise.time
                                    },
                                    value: peak.1.value,
                                },
                                steepest_rise,
                                sharpest_fall: make_optional(source.1.superlative),
                            },
                        )
                    },
                    _ => None,
                }
            },
        }
    }
}

/// On an empty trace the detector finds no event, whatever state it is in.
pub proof fn lemma_empty_trace_gives_no_event(detector: AdvancedMuonDetector)
    ensures
        detected(detector, Seq::empty()) == Seq::<MuonEvent>::empty(),
{
}

/// Whether a pulse has its start, its peak and its end, in this order.
pub open spec fn is_in_order(pulse: Pulse) -> bool {
    &&& pulse.start.time is Some
    &&& pulse.peak.time is Some
    &&& pulse.end.time is Some
    &&& pulse.start.time->0 <= pulse.peak.time->0 <= pulse.end.time->0
}

/// Whether a detector and the assembler of its events are in step at the
/// time `now`: they are in the same part of a pulse, nothing that they hold
/// lies after `now`, and what they hold of the pulse is in order.
pub open spec fn in_step(
    detector: AdvancedMuonDetector,
    assembler: AdvancedMuonAssembler,
    now: Real,
) -> bool {
    &&& detector.candidate is Some ==> detector.candidate->0.time <= now
    &&& detector.record is Some ==> detector.record->0.peak.time <= now
    &&& match detector.phase {
        Phase::Flat => {
            &&& assembler.mode is Waiting
            &&& detector.candidate is None ==> detector.record is None
            &&& detector.candidate is Some ==> detector.record is Some
                && detector.candidate->0.time <= detector.record->0.peak.time
        },
        Phase::Rising => match assembler.mode {
            AssemblerMode::Rising { start } => detector.record is Some && start.0
                <= detector.record->0.peak.time,
            _ => false,
        },
        Phase::Falling => match assembler.mode {
            AssemblerMode::Falling { start, peak } => {
                &&& start.0 <= peak.0 <= now
                &&& peak.1.value is Some
                &&& detector.candidate is Some ==> peak.0 <= detector.candidate->0.time
            },
            _ => false,
        },
    }
}

/// The assembler after the event of a detector's step, if there is one, and its pulse.
pub open spec fn assembled_step(
    assembler: AdvancedMuonAssembler,
    event: Option<MuonEvent>,
) -> (AdvancedMuonAssembler, Option<Pulse>) {
    match event {
        Some(event) => assembler.spec_assemble_pulses(event),
        None => (assembler, None),
    }
}

/// A detector and its assembler stay in step from trace point to trace
/// point, as long as time does not go back, and a pulse that they give is in order.
pub proof fn lemma_stay_in_step(
    detector: AdvancedMuonDetector,
    assembler: AdvancedMuonAssembler,
    now: Real,
    time: Real,
    value: RealArray<2>,
)
    requires
        in_step(detector, assembler, now),
        now <= time,
    ensures
        in_step(
            detector.spec_signal(time, value).0,
            assembled_step(assembler, detector.spec_signal(time, value).1).0,
            time,
        ),
        assembled_step(assembler, detector.spec_signal(time, value).1).1 matches Some(pulse)
            ==> is_in_order(pulse),
{
}

/// The pulses that an assembler makes of the events of a detector are in
/// order, as long as the two are in step and time does not go back.
pub proof fn lemma_pulses_are_in_order(
    detector: AdvancedMuonDetector,
    assembler: AdvancedMuonAssembler,
    now: Real,
    input: Seq<(Real, RealArray<2>)>,
)
    requires
        in_step(detector, assembler, now),
        times_never_fall(input),
        input.len() > 0 ==> now <= input[0].0,
    ensures
        forall|i: int|
            0 <= i < assembled(assembler, detected(detector, input)).len() ==> is_in_order(
                #[trigger] assembled(assembler, detected(detector, input))[i],
            ),
    decreases input.len(),
{
    if input.len() > 0 {
        let (time, value) = input[0];
        let (after, event) = detector.spec_signal(time, value);
        let (next, pulse) = assembled_step(assembler, event);
        let rest = input.skip(1);
        lemma_stay_in_step(detector, assembler, now, time, value);
        assert(times_never_fall(rest)) by {
            assert forall|i: int, j: int| 0 <= i <= j < rest.len() implies rest[i].0
                <= rest[j].0 by {
                assert(rest[i] == input[i + 1] && rest[j] == input[j + 1]);
            }
        }
        if rest.len() > 0 {
            assert(rest[0] == input[1]);
        }
        lemma_pulses_are_in_order(after, next, time, rest);
        let events = detected(detector, input);
        let later = detected(after, rest);
        match event {
            Some(found) => {
                assert(events == seq![found] + later);
                assert(events[0] == found);
                assert(events.skip(1) =~= later);
                let pulses = assembled(assembler, events);
                match pulse {
                    Some(made) => {
                        assert(pulses == seq![made] + assembled(next, later));
                        assert forall|i: int| 0 <= i < pulses.len() implies is_in_order(
                            #[trigger] pulses[i],
                        ) by {
                            if i > 0 {
                                assert(pulses[i] == assembled(next, later)[i - 1]);
                            }
                        }
                    },
                    None => {
                        assert(pulses == assembled(next, later));
                    },
                }
            },
            None => {
                assert(events == later);
            },
        }
    } else {
        assert(detected(detector, input) =~= Seq::empty());
    }
}

/// A new detector and a new assembler are in step.
pub proof fn lemma_new_are_in_step(
    onset: Real,
    fall: Real,
    termination: Real,
    duration: Real,
    now: Real,
)
    ensures
        in_step(
            AdvancedMuonDetector::spec_new(onset, fall, termination, duration),
            AdvancedMuonAssembler::spec_new(),
            now,
        ),
{
}

} // verus!
