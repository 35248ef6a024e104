use muon_trace::fixed::{Real, SCALE};
use muon_trace::pulse_detection::datatype::{RealArray, TraceArray};
use muon_trace::pulse_detection::detectors::advanced_muon_detector::{
    AdvancedMuonAssembler, AdvancedMuonDetector, AssemblerMode, Class, Data, Phase,
};
use muon_trace::pulse_detection::detectors::{Assembler, Detector};
use muon_trace::pulse_detection::iterators::assembler::AssembleFilter;
use muon_trace::pulse_detection::iterators::event::EventFilter;
use muon_trace::pulse_detection::iterators::window::WindowIterable;
use muon_trace::pulse_detection::iterators::{collect, Stream, VecStream};
use muon_trace::pulse_detection::pulse::{Pulse, TimeValue, TimeValueOptional};
use muon_trace::pulse_detection::window::finite_differences::FiniteDifferences;

fn amount(x: f64) -> Real {
    (x * SCALE as f64).round() as Real
}

fn pair(value: f64, difference: f64) -> RealArray<2> {
    TraceArray::new([amount(value), amount(difference)])
}

fn trace_points(data: &[f64]) -> VecStream<(Real, Real)> {
    VecStream::new(
        data.iter()
            .copied()
            .enumerate()
            .map(|(i, v)| (amount(i as f64), amount(v)))
            .collect(),
    )
}

const PULSE: [f64; 12] = [0.0, 0.0, 0.0, 2.0, 6.0, 12.0, 14.0, 10.0, 4.0, 3.0, 3.0, 3.0];

fn onset(time: f64, value: f64) -> (Real, Data) {
    (
        amount(time),
        Data {
            class: Class::Onset,
            value: Some(amount(value)),
            superlative: None,
        },
    )
}

fn peak(time: f64, value: f64, steepest: (f64, f64, f64)) -> (Real, Data) {
    (
        amount(time),
        Data {
            class: Class::Peak,
            value: Some(amount(value)),
            superlative: Some(TimeValue {
                time: amount(steepest.0),
                value: pair(steepest.1, steepest.2),
            }),
        },
    )
}

fn end(time: f64, value: f64, sharpest: (f64, f64, f64)) -> (Real, Data) {
    (
        amount(time),
        Data {
            class: Class::End,
            value: Some(amount(value)),
            superlative: Some(TimeValue {
                time: amount(sharpest.0),
                value: pair(sharpest.1, sharpest.2),
            }),
        },
    )
}

#[test]
fn onset_peak_and_end_of_a_pulse() {
    let detector = AdvancedMuonDetector::new(amount(1.5), amount(-3.0), amount(-0.5), 0);
    let mut stream = trace_points(&PULSE)
        .window(FiniteDifferences::<2>::new())
        .events(detector);
    assert_eq!(stream.next(), Some(onset(3.0, 2.0)));
    assert_eq!(stream.next(), Some(peak(6.0, 14.0, (5.0, 12.0, 6.0))));
    assert_eq!(stream.next(), Some(end(10.0, 3.0, (8.0, 4.0, -6.0))));
    assert_eq!(stream.next(), None);
}

#[test]
fn each_part_of_a_pulse_must_last() {
    // With a duration of one sample each part is known one sample later, and
    // stands at the same time.
    let detector =
        AdvancedMuonDetector::new(amount(1.5), amount(-3.0), amount(-0.5), amount(1.0));
    let mut stream = trace_points(&PULSE)
        .window(FiniteDifferences::<2>::new())
        .events(detector);
    assert_eq!(stream.next(), Some(onset(3.0, 2.0)));
    assert_eq!(stream.next(), Some(peak(6.0, 14.0, (5.0, 12.0, 6.0))));
    assert_eq!(stream.next(), Some(end(10.0, 3.0, (8.0, 4.0, -6.0))));
    assert_eq!(stream.next(), None);
}

#[test]
fn a_rise_that_does_not_last_is_no_onset() {
    let detector =
        AdvancedMuonDetector::new(amount(1.5), amount(-3.0), amount(-0.5), amount(2.0));
    let data = [0.0, 2.0, 4.0, 4.0, 6.0, 8.0, 10.0];
    let mut stream = trace_points(&data)
        .window(FiniteDifferences::<2>::new())
        .events(detector);
    // The rise from 1 to 2 is broken off at 3; the rise from 4 lasts to 6.
    assert_eq!(stream.next(), Some(onset(4.0, 6.0)));
    assert_eq!(stream.next(), None);
}

#[test]
fn detector_steps() {
    let mut detector = AdvancedMuonDetector::new(amount(1.5), amount(-3.0), amount(-0.5), 0);
    assert_eq!(detector.phase, Phase::Flat);
    assert_eq!(detector.signal(amount(0.0), pair(1.0, 1.0)), None);
    assert_eq!(detector.record, None);
    assert_eq!(
        detector.signal(amount(1.0), pair(3.0, 2.0)),
        Some(onset(1.0, 3.0))
    );
    assert_eq!(detector.phase, Phase::Rising);
    assert_eq!(detector.signal(amount(2.0), pair(3.0, 0.0)), None);
    assert_eq!(
        detector.signal(amount(3.0), pair(-0.5, -3.5)),
        Some(peak(1.0, 3.0, (1.0, 3.0, 2.0)))
    );
    assert_eq!(detector.phase, Phase::Falling);
    assert_eq!(
        detector.signal(amount(4.0), pair(-0.5, 0.0)),
        Some(end(4.0, -0.5, (3.0, -0.5, -3.5)))
    );
    assert_eq!(detector.phase, Phase::Flat);
    assert_eq!(detector.record, None);
    assert_eq!(detector.finish(), None);
}

#[test]
fn a_difference_at_a_threshold_does_not_pass_it() {
    let mut detector = AdvancedMuonDetector::new(amount(1.5), amount(-3.0), amount(-0.5), 0);
    assert_eq!(detector.signal(amount(0.0), pair(1.5, 1.5)), None);
    assert_eq!(detector.phase, Phase::Flat);
    assert_eq!(
        detector.signal(amount(1.0), pair(3.5, 2.0)),
        Some(onset(1.0, 3.5))
    );
    assert_eq!(detector.signal(amount(2.0), pair(0.5, -3.0)), None);
    assert_eq!(detector.phase, Phase::Rising);
    assert_eq!(
        detector.signal(amount(3.0), pair(-3.0, -3.5)),
        Some(peak(1.0, 3.5, (1.0, 3.5, 2.0)))
    );
    assert_eq!(detector.signal(amount(4.0), pair(-3.5, -0.5)), None);
    assert_eq!(detector.phase, Phase::Falling);
    assert_eq!(
        detector.signal(amount(5.0), pair(-3.5, 0.0)),
        Some(end(5.0, -3.5, (3.0, -3.0, -3.5)))
    );
}

#[test]
fn assembler_makes_one_pulse_of_three_events() {
    let detector = AdvancedMuonDetector::new(amount(1.5), amount(-3.0), amount(-0.5), 0);
    let mut stream = trace_points(&PULSE)
        .window(FiniteDifferences::<2>::new())
        .events(detector)
        .assemble(AdvancedMuonAssembler::default());
    let pulses = collect(&mut stream);
    assert_eq!(
        pulses,
        vec![Pulse {
            start: TimeValueOptional {
                time: Some(amount(3.0)),
                value: Some(amount(2.0)),
            },
            end: TimeValueOptional {
                time: Some(amount(10.0)),
                value: Some(amount(3.0)),
            },
            peak: TimeValueOptional {
                time: Some(amount(6.0)),
                value: Some(amount(14.0)),
            },
            steepest_rise: TimeValueOptional {
                time: Some(amount(5.0)),
                value: Some(pair(12.0, 6.0)),
            },
            sharpest_fall: TimeValueOptional {
                time: Some(amount(8.0)),
                value: Some(pair(4.0, -6.0)),
            },
        }]
    );
    let pulse = &pulses[0];
    assert!(pulse.start.time <= pulse.peak.time && pulse.peak.time <= pulse.end.time);
}

#[test]
fn assembler_finds_two_pulses() {
    let mut data = PULSE.to_vec();
    data.extend(PULSE.iter().map(|v| v + 3.0));
    let detector = AdvancedMuonDetector::new(amount(1.5), amount(-3.0), amount(-0.5), 0);
    let mut stream = trace_points(&data)
        .window(FiniteDifferences::<2>::new())
        .events(detector)
        .assemble(AdvancedMuonAssembler::default());
    let pulses = collect(&mut stream);
    assert_eq!(pulses.len(), 2);
    assert_eq!(pulses[1].peak.time, Some(amount(18.0)));
    assert_eq!(pulses[1].peak.value, Some(amount(17.0)));
}

#[test]
fn assembler_passes_over_events_out_of_turn() {
    let mut assembler = AdvancedMuonAssembler::new();
    assert_eq!(assembler.mode, AssemblerMode::Waiting);
    assert_eq!(assembler.assemble_pulses(peak(1.0, 1.0, (1.0, 1.0, 1.0))), None);
    assert_eq!(assembler.assemble_pulses(end(1.0, 1.0, (1.0, 1.0, 1.0))), None);
    assert_eq!(assembler.mode, AssemblerMode::Waiting);
    assert_eq!(assembler.assemble_pulses(onset(2.0, 1.0)), None);
    assert_eq!(assembler.assemble_pulses(onset(3.0, 1.0)), None);
    assert_eq!(
        assembler.mode,
        AssemblerMode::Rising {
            start: onset(2.0, 1.0)
        }
    );
    assert_eq!(assembler.assemble_pulses(end(4.0, 1.0, (1.0, 1.0, 1.0))), None);
    assert_eq!(assembler.assemble_pulses(peak(5.0, 9.0, (4.0, 5.0, 4.0))), None);
    assert_eq!(assembler.assemble_pulses(onset(6.0, 1.0)), None);
    let pulse = assembler
        .assemble_pulses(end(7.0, 2.0, (6.0, 3.0, -4.0)))
        .unwrap();
    assert_eq!(pulse.start.time, Some(amount(2.0)));
    assert_eq!(pulse.peak.time, Some(amount(5.0)));
    assert_eq!(pulse.end.time, Some(amount(7.0)));
    assert_eq!(assembler.mode, AssemblerMode::Waiting);
}

#[test]
fn steepest_rise_stands_for_a_peak_without_a_value() {
    let mut assembler = AdvancedMuonAssembler::new();
    assembler.assemble_pulses(onset(2.0, 1.0));
    let mut nameless = peak(5.0, 9.0, (4.0, 5.0, 4.0));
    nameless.1.value = None;
    assembler.assemble_pulses(nameless);
    let pulse = assembler
        .assemble_pulses(end(7.0, 2.0, (6.0, 3.0, -4.0)))
        .unwrap();
    assert_eq!(pulse.peak.time, Some(amount(4.0)));
    assert_eq!(pulse.peak.value, None);
    assert_eq!(pulse.steepest_rise.time, Some(amount(4.0)));
}

#[test]
fn advanced_detector_empty_input() {
    let mut stream = VecStream::<(Real, RealArray<2>)>::new(Vec::new())
        .events(AdvancedMuonDetector::default())
        .assemble(AdvancedMuonAssembler::default());
    assert_eq!(stream.next(), None);
}

#[test]
fn time_value_becomes_optional() {
    let both = TimeValueOptional::from(TimeValue {
        time: amount(1.0),
        value: amount(2.0),
    });
    assert_eq!(both.time, Some(amount(1.0)));
    assert_eq!(both.value, Some(amount(2.0)));
    let pulse = Pulse::default();
    assert_eq!(pulse.start, TimeValueOptional::none());
    assert_eq!(pulse.peak.value, None);
}
