use muon_trace::fixed::{Intensity, Real, SCALE};
use muon_trace::parameters::PeakHeightMode;
use muon_trace::pulse_detection::datatype::TraceArray;
use muon_trace::pulse_detection::detectors::differential_threshold_detector::{
    Data, DetectorState, DifferentialThresholdDetector, DifferentialThresholdParameters,
    PartialEvent,
};
use muon_trace::pulse_detection::detectors::Detector;
use muon_trace::pulse_detection::iterators::event::{EventFilter, EventIter};
use muon_trace::pulse_detection::iterators::window::{WindowIter, WindowIterable};
use muon_trace::pulse_detection::iterators::{Stream, VecStream};
use muon_trace::pulse_detection::window::finite_differences::FiniteDifferences;

type Pipeline =
    EventIter<WindowIter<VecStream<(Real, Real)>, FiniteDifferences<2>>, DifferentialThresholdDetector>;

fn fixed(x: f64) -> Real {
    (x * SCALE as f64).round() as Real
}

fn pipeline(data: &[Intensity], detector: DifferentialThresholdDetector) -> Pipeline {
    let points: Vec<(Real, Real)> = data
        .iter()
        .copied()
        .enumerate()
        .map(|(i, v)| (fixed(i as f64), fixed(v as f64)))
        .collect();
    VecStream::new(points)
        .window(FiniteDifferences::<2>::new())
        .events(detector)
}

fn some_new_event(time: f64, base_height: f64, peak_height: f64) -> Option<(Real, Data)> {
    Some(Data::new_event(
        fixed(time),
        fixed(base_height),
        fixed(peak_height),
    ))
}

#[test]
fn zero_data() {
    let data: [Intensity; 0] = [];
    let detector = DifferentialThresholdDetector::new(
        &DifferentialThresholdParameters {
            begin_threshold: fixed(2.0),
            end_threshold: fixed(0.0),
            begin_duration: fixed(2.0),
            ..Default::default()
        },
        Default::default(),
    );
    let mut iter = pipeline(&data, detector);
    assert_eq!(iter.next(), None);
}

#[test]
fn test_positive_threshold() {
    let data = [4, 3, 2, 5, 6, 1, 5, 7, 6, 4, 5];
    let parameters = DifferentialThresholdParameters {
        begin_threshold: fixed(3.0),
        end_threshold: fixed(-2.0),
        ..Default::default()
    };
    let detector =
        DifferentialThresholdDetector::new(&parameters, PeakHeightMode::ValueAtEndTrigger);
    let mut iter = pipeline(&data, detector);
    assert_eq!(iter.next(), some_new_event(3.0, 2.0, 6.0));
    assert_eq!(iter.next(), some_new_event(6.0, 1.0, 6.0));
    assert_eq!(iter.next(), None);

    let detector = DifferentialThresholdDetector::new(&parameters, PeakHeightMode::MaxValue);
    let mut iter = pipeline(&data, detector);
    assert_eq!(iter.next(), some_new_event(3.0, 2.0, 6.0));
    assert_eq!(iter.next(), some_new_event(6.0, 1.0, 7.0));
    assert_eq!(iter.next(), None);
}

const DURATION_DATA: [Intensity; 17] = [4, 3, 2, 5, 8, 12, 2, 1, 5, 7, 2, 6, 5, 8, 8, 11, 0];

#[test]
fn differential_threshold_detector_test_duration_3() {
    // A begin duration of three samples.
    let parameters = DifferentialThresholdParameters {
        begin_threshold: fixed(2.5),
        end_threshold: fixed(0.0),
        begin_duration: fixed(3.0),
        ..Default::default()
    };
    let detector = DifferentialThresholdDetector::new(&parameters, Default::default());
    let mut iter = pipeline(&DURATION_DATA, detector);

    assert_eq!(iter.next(), some_new_event(5.0, 2.0, 12.0));
    assert_eq!(iter.next(), None);

    // An end duration of three samples.
    let parameters = DifferentialThresholdParameters {
        begin_threshold: fixed(2.5),
        end_threshold: fixed(0.0),
        end_duration: fixed(3.0),
        ..Default::default()
    };
    let detector = DifferentialThresholdDetector::new(&parameters, Default::default());
    let mut iter = pipeline(&DURATION_DATA, detector);

    assert_eq!(iter.next(), some_new_event(5.0, 2.0, 12.0));
    assert_eq!(iter.next(), None);
}

#[test]
fn differential_threshold_detector_test_duration_2() {
    // A begin duration of two samples.
    let parameters = DifferentialThresholdParameters {
        begin_threshold: fixed(2.5),
        end_threshold: fixed(0.0),
        begin_duration: fixed(2.0),
        ..Default::default()
    };
    let detector = DifferentialThresholdDetector::new(&parameters, Default::default());
    let mut iter = pipeline(&DURATION_DATA, detector);

    assert_eq!(iter.next(), some_new_event(5.0, 2.0, 12.0));
    assert_eq!(iter.next(), None);

    // An end duration of two samples.
    let parameters = DifferentialThresholdParameters {
        begin_threshold: fixed(2.5),
        end_threshold: fixed(0.0),
        end_duration: fixed(2.0),
        ..Default::default()
    };
    let detector = DifferentialThresholdDetector::new(&parameters, Default::default());
    let mut iter = pipeline(&DURATION_DATA, detector);

    assert_eq!(iter.next(), some_new_event(5.0, 2.0, 12.0));
    assert_eq!(iter.next(), some_new_event(11.0, 2.0, 6.0));
    assert_eq!(iter.next(), None);
}

#[test]
fn differential_threshold_detector_test_duration_1() {
    // A begin duration of one sample.
    let parameters = DifferentialThresholdParameters {
        begin_threshold: fixed(2.5),
        end_threshold: fixed(0.0),
        begin_duration: fixed(1.0),
        ..Default::default()
    };
    let detector = DifferentialThresholdDetector::new(&parameters, Default::default());

    let mut iter = pipeline(&DURATION_DATA, detector);
    assert_eq!(iter.next(), some_new_event(5.0, 2.0, 12.0));
    assert_eq!(iter.next(), some_new_event(8.0, 1.0, 7.0));
    assert_eq!(iter.next(), some_new_event(11.0, 2.0, 8.0));
    assert_eq!(iter.next(), None);

    // An end duration of one sample.
    let parameters = DifferentialThresholdParameters {
        begin_threshold: fixed(2.5),
        end_threshold: fixed(0.0),
        end_duration: fixed(1.0),
        ..Default::default()
    };
    let detector = DifferentialThresholdDetector::new(&parameters, Default::default());

    let mut iter = pipeline(&DURATION_DATA, detector);
    assert_eq!(iter.next(), some_new_event(5.0, 2.0, 12.0));
    assert_eq!(iter.next(), some_new_event(8.0, 1.0, 7.0));
    assert_eq!(iter.next(), some_new_event(13.0, 5.0, 8.0));
    assert_eq!(iter.next(), None);
}

#[test]
fn differential_threshold_detector_test_duration_0() {
    // No begin duration.
    let parameters = DifferentialThresholdParameters {
        begin_threshold: fixed(2.5),
        end_threshold: fixed(0.0),
        ..Default::default()
    };
    let detector = DifferentialThresholdDetector::new(&parameters, Default::default());

    let mut iter = pipeline(&DURATION_DATA, detector);
    assert_eq!(iter.next(), some_new_event(5.0, 2.0, 12.0));
    assert_eq!(iter.next(), some_new_event(8.0, 1.0, 7.0));
    assert_eq!(iter.next(), some_new_event(11.0, 2.0, 6.0));
    assert_eq!(iter.next(), some_new_event(13.0, 5.0, 8.0));
    assert_eq!(iter.next(), some_new_event(15.0, 8.0, 11.0));
    assert_eq!(iter.next(), None);

    // No end duration.
    let parameters = DifferentialThresholdParameters {
        begin_threshold: fixed(2.5),
        end_duration: fixed(0.0),
        ..Default::default()
    };
    let detector = DifferentialThresholdDetector::new(&parameters, Default::default());

    let mut iter = pipeline(&DURATION_DATA, detector);
    assert_eq!(iter.next(), some_new_event(5.0, 2.0, 12.0));
    assert_eq!(iter.next(), some_new_event(8.0, 1.0, 7.0));
    assert_eq!(iter.next(), some_new_event(11.0, 2.0, 6.0));
    assert_eq!(iter.next(), some_new_event(13.0, 5.0, 8.0));
    assert_eq!(iter.next(), some_new_event(15.0, 8.0, 11.0));
    assert_eq!(iter.next(), None);
}

// The positive differences occur at:                 3, 6, 7, 9,  11, 13
// The differences greater than 2.5 occur at:         3, 6,    9,  11, 13
// The following non-positive differences occur at:   4, 8,    10, 12, 14
const COOL_OFF_DATA: [Intensity; 15] = [4, 3, 2, 5, 2, 1, 5, 7, 2, 6, 5, 8, 8, 11, 0];

#[test]
fn test_cool_off_3() {
    let parameters = DifferentialThresholdParameters {
        begin_threshold: fixed(2.5),
        end_threshold: fixed(0.0),
        cool_off: fixed(3.0),
        ..Default::default()
    };
    let detector = DifferentialThresholdDetector::new(&parameters, Default::default());
    let mut iter = pipeline(&COOL_OFF_DATA, detector);

    assert_eq!(iter.next(), some_new_event(3.0, 2.0, 5.0));
    assert_eq!(iter.next(), some_new_event(9.0, 2.0, 6.0));
    assert_eq!(iter.next(), None);
}

#[test]
fn test_cool_off_2() {
    let parameters = DifferentialThresholdParameters {
        begin_threshold: fixed(2.5),
        end_threshold: fixed(0.0),
        cool_off: fixed(2.0),
        ..Default::default()
    };
    let detector = DifferentialThresholdDetector::new(&parameters, Default::default());
    let mut iter = pipeline(&COOL_OFF_DATA, detector);

    assert_eq!(iter.next(), some_new_event(3.0, 2.0, 5.0));
    assert_eq!(iter.next(), some_new_event(9.0, 2.0, 6.0));
    assert_eq!(iter.next(), some_new_event(13.0, 8.0, 11.0));
    assert_eq!(iter.next(), None);
}

#[test]
fn test_cool_off_1() {
    let parameters = DifferentialThresholdParameters {
        begin_threshold: fixed(2.5),
        end_threshold: fixed(0.0),
        cool_off: fixed(1.0),
        ..Default::default()
    };
    let detector = DifferentialThresholdDetector::new(&parameters, Default::default());

    let mut iter = pipeline(&COOL_OFF_DATA, detector);
    assert_eq!(iter.next(), some_new_event(3.0, 2.0, 5.0));
    assert_eq!(iter.next(), some_new_event(6.0, 1.0, 7.0));
    assert_eq!(iter.next(), some_new_event(11.0, 5.0, 8.0));
    assert_eq!(iter.next(), None);
}

#[test]
fn test_cool_off_0() {
    let parameters = DifferentialThresholdParameters {
        begin_threshold: fixed(2.5),
        end_threshold: fixed(0.0),
        ..Default::default()
    };
    let detector = DifferentialThresholdDetector::new(&parameters, Default::default());

    let mut iter = pipeline(&COOL_OFF_DATA, detector);
    assert_eq!(iter.next(), some_new_event(3.0, 2.0, 5.0));
    assert_eq!(iter.next(), some_new_event(6.0, 1.0, 7.0));
    assert_eq!(iter.next(), some_new_event(9.0, 2.0, 6.0));
    assert_eq!(iter.next(), some_new_event(11.0, 5.0, 8.0));
    assert_eq!(iter.next(), some_new_event(13.0, 8.0, 11.0));
    assert_eq!(iter.next(), None);
}

fn b2bexp(x: f64, ampl: f64, spread: f64, x0: f64, rising: f64, falling: f64) -> Intensity {
    let normalising_factor = ampl * 0.5 * (rising * falling) / (rising + falling);
    let rising_spread = rising * spread.powi(2);
    let falling_spread = falling * spread.powi(2);
    let x_shift = x - x0;
    let rising_exp = f64::exp(rising * 0.5 * (rising_spread + 2.0 * x_shift));
    let rising_erfc = libm::erfc((rising_spread + x_shift) / (f64::sqrt(2.0) * spread));
    let falling_exp = f64::exp(falling * 0.5 * (falling_spread - 2.0 * x_shift));
    let falling_erfc = libm::erfc((falling_spread - x_shift) / (f64::sqrt(2.0) * spread));
    (normalising_factor * (rising_exp * rising_erfc + falling_exp * falling_erfc)) as Intensity
}

#[test]
fn test_b2bexp() {
    let range = 0..100;
    let data = range
        .clone()
        .map(|x| {
            b2bexp(x as f64, 1000.0, 3.5, 20.0, 3.5, 2.25)
                + b2bexp(x as f64, 1000.0, 3.5, 54.0, 4.5, 5.5)
                + b2bexp(x as f64, 1000.0, 3.5, 81.0, 1.5, 3.25)
        })
        .collect::<Vec<_>>();

    let detector = DifferentialThresholdDetector::new(
        &DifferentialThresholdParameters {
            begin_threshold: fixed(3.0),
            end_threshold: fixed(0.0),
            ..Default::default()
        },
        Default::default(),
    );
    let mut iter = pipeline(&data, detector);
    assert_eq!(iter.next(), some_new_event(17.0, 3.0, 112.0));
    assert_eq!(iter.next(), some_new_event(50.0, 4.0, 113.0));
    assert_eq!(iter.next(), some_new_event(77.0, 3.0, 111.0));
    assert_eq!(iter.next(), None);
}

/// Gives the trace to the detector point by point, and counts the events and
/// the times the detector leaves `Detected`.
fn events_and_endings(data: &[Intensity], mut detector: DifferentialThresholdDetector) -> (usize, usize) {
    let mut events = 0;
    let mut endings = 0;
    for i in 1..data.len() {
        let value = TraceArray::new([
            fixed(data[i] as f64),
            fixed(data[i] as f64) - fixed(data[i - 1] as f64),
        ]);
        let was_detected = detector.state == DetectorState::Detected;
        if detector.signal(fixed(i as f64), value).is_some() {
            events += 1;
        }
        let left = matches!(
            detector.state,
            DetectorState::Waiting | DetectorState::Ending { .. } | DetectorState::CoolingDown { .. }
        );
        if was_detected && left {
            endings += 1;
        }
    }
    (events, endings)
}

#[test]
fn one_event_for_each_ending_without_end_duration() {
    for (begin_duration, cool_off) in [(0.0, 0.0), (1.0, 0.0), (2.0, 0.0), (0.0, 1.0), (0.0, 3.0), (1.0, 2.0)] {
        let parameters = DifferentialThresholdParameters {
            begin_threshold: fixed(2.5),
            end_threshold: fixed(0.0),
            begin_duration: fixed(begin_duration),
            cool_off: fixed(cool_off),
            ..Default::default()
        };
        for data in [&DURATION_DATA[..], &COOL_OFF_DATA[..]] {
            let detector = DifferentialThresholdDetector::new(&parameters, Default::default());
            let (events, endings) = events_and_endings(data, detector);
            assert_eq!(events, endings);
        }
        let detector = DifferentialThresholdDetector::new(&parameters, Default::default());
        assert!(events_and_endings(&DURATION_DATA, detector).0 > 0);
    }
}

#[test]
fn a_detection_taken_up_again_ends_without_an_event() {
    let parameters = DifferentialThresholdParameters {
        begin_threshold: fixed(2.5),
        end_threshold: fixed(0.0),
        end_duration: fixed(3.0),
        ..Default::default()
    };
    let detector = DifferentialThresholdDetector::new(&parameters, Default::default());
    assert_eq!(events_and_endings(&DURATION_DATA, detector), (1, 5));
}

#[test]
fn event_stands_at_the_first_steepest_rise() {
    let point = |value: f64, difference: f64| TraceArray::new([fixed(value), fixed(difference)]);
    let mut detector = DifferentialThresholdDetector::new(
        &DifferentialThresholdParameters {
            begin_threshold: fixed(1.0),
            end_threshold: fixed(0.0),
            ..Default::default()
        },
        PeakHeightMode::MaxValue,
    );
    // The rises are 2, 4, 4 and 3: the first of the two steepest counts.
    assert_eq!(detector.signal(fixed(0.0), point(2.0, 2.0)), None);
    assert_eq!(detector.signal(fixed(1.0), point(6.0, 4.0)), None);
    assert_eq!(detector.signal(fixed(2.0), point(10.0, 4.0)), None);
    assert_eq!(detector.signal(fixed(3.0), point(13.0, 3.0)), None);
    assert_eq!(
        detector.partial_event,
        Some(PartialEvent {
            base_height: fixed(0.0),
            time_of_event: fixed(1.0),
            peak_height: fixed(13.0),
            trace_array_at_max_deriv: point(6.0, 4.0),
        })
    );
    assert_eq!(
        detector.signal(fixed(4.0), point(12.0, -1.0)),
        some_new_event(1.0, 0.0, 13.0)
    );
    assert_eq!(detector.partial_event, None);
    assert_eq!(detector.state, DetectorState::Waiting);
    assert_eq!(detector.finish(), None);
}

#[test]
fn partial_event_steps() {
    let point = |value: f64, difference: f64| TraceArray::new([fixed(value), fixed(difference)]);
    let mut detector = DifferentialThresholdDetector::default();
    detector.init_new_partial_event(fixed(7.0), point(5.0, 3.0));
    let mut event = detector.partial_event.unwrap();
    assert_eq!(event.base_height, fixed(2.0));
    assert_eq!(event.peak_height, fixed(5.0));
    event.update_max_derivative(fixed(8.0), point(8.0, 3.0));
    assert_eq!(event.time_of_event, fixed(7.0));
    event.update_max_derivative(fixed(9.0), point(12.0, 4.0));
    assert_eq!(event.time_of_event, fixed(9.0));
    event.set_peak_height_to_max_value(fixed(4.0));
    assert_eq!(event.peak_height, fixed(5.0));
    event.set_peak_height_to_max_value(fixed(12.0));
    assert_eq!(event.peak_height, fixed(12.0));
    event.set_peak_height_to_last_value(point(2.0, -10.0));
    assert_eq!(event.peak_height, fixed(12.0));
    event.set_peak_height_to_last_value(point(2.0, -7.5));
    assert_eq!(event.peak_height, fixed(9.5));
    event.update(PeakHeightMode::MaxValue, fixed(10.0), point(20.0, 8.0));
    assert_eq!(event.into_event(), (fixed(10.0), Data { base_height: fixed(2.0), peak_height: fixed(20.0) }));
    assert_eq!(detector.try_take_completed_event().map(|taken| taken.time_of_event), Some(fixed(7.0)));
    assert_eq!(detector.try_take_completed_event(), None);
    detector.modify_state(fixed(11.0), point(20.0, 0.0));
    assert_eq!(detector.state, DetectorState::Detected);
    assert_eq!(detector.partial_event.map(|held| held.time_of_event), Some(fixed(11.0)));
}
