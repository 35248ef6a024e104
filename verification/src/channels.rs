//! Finds the events of one channel's trace with a given detector.
//!
//! Each function here builds the pipeline of one detector over the samples of
//! a trace, runs it to its end, and gives the events out as two lists of the
//! same length: the times in whole ticks, and the heights in whole units.
use crate::fixed::{
    real_from_int, real_from_int_spec, real_scale, real_scale_spec, real_sub, real_sub_spec,
    to_intensity, to_intensity_spec, to_time, to_time_spec, Intensity, Real, Time,
};
use crate::parameters::{
    AdvancedMuonDetectorParameters, DetectorSettings, DifferentialThresholdDiscriminatorParameters,
    FixedThresholdDiscriminatorParameters, Mode, PeakHeightBasis, Polarity,
};
use crate::pulse_detection::detectors::advanced_muon_detector::{
    is_in_order, lemma_pulses_are_in_order, AdvancedMuonAssembler, AdvancedMuonDetector,
};
use crate::pulse_detection::detectors::differential_threshold_detector::{
    Data, DifferentialThresholdDetector, DifferentialThresholdParameters,
};
use crate::pulse_detection::detectors::threshold_detector::{ThresholdDetector, ThresholdDuration};
use crate::pulse_detection::iterators::assembler::{assembled, AssembleFilter};
use crate::pulse_detection::iterators::event::{detected, EventFilter};
use crate::pulse_detection::iterators::window::{
    lemma_windowed_times_never_fall, windowed, WindowIterable,
};
use crate::pulse_detection::iterators::{
    collect, lemma_means_never_fall, means, times_never_fall, MeanIter, Stream,
};
use crate::pulse_detection::pulse::Pulse;
use crate::pulse_detection::window::baseline::Baseline;
use crate::pulse_detection::window::finite_differences::FiniteDifferences;
use crate::pulse_detection::window::smoothing_window::{SmoothingModel, SmoothingWindow};
use vstd::prelude::*;

verus! {

/// The fraction by which a sample moves the estimate of the baseline: a tenth.
pub const BASELINE_BIAS: Real = 100_000;

/// A trace value as the detectors see it: the sample less the baseline,
/// turned over where pulses are negative.
pub open spec fn corrected(sample: Intensity, polarity: Polarity, baseline: Real) -> Real {
    let excess = real_sub_spec(real_from_int_spec(sample as int), baseline);
    match polarity {
        Polarity::Positive => excess,
        Polarity::Negative => real_sub_spec(0, excess),
    }
}

/// The trace point of the sample at position `i`.
pub open spec fn raw_point(
    samples: Seq<Intensity>,
    i: int,
    sample_time: Real,
    polarity: Polarity,
    baseline: Real,
) -> (Real, Real) {
    (real_scale_spec(sample_time, i), corrected(samples[i], polarity, baseline))
}

/// The trace points of a trace: the sample at position `i` stands at the time
/// `i * sample_time`.
pub open spec fn raw_points(
    samples: Seq<Intensity>,
    sample_time: Real,
    polarity: Polarity,
    baseline: Real,
) -> Seq<(Real, Real)> {
    Seq::new(samples.len(), |i: int| raw_point(samples, i, sample_time, polarity, baseline))
}

/// The trace points of a trace, one sample at a time.
pub struct RawTrace<'a> {
    samples: &'a [Intensity],
    position: usize,
    sample_time: Real,
    polarity: Polarity,
    baseline: Real,
}

impl<'a> RawTrace<'a> {
    /// The trace points of `samples`, from the first.
    pub fn new(samples: &'a [Intensity], sample_time: Real, polarity: Polarity, baseline: Real) -> (r:
        Self)
        ensures
            r.wf(),
            r.pending() == raw_points(samples@, sample_time, polarity, baseline),
    {
        let r = RawTrace { samples, position: 0, sample_time, polarity, baseline };
        proof {
            assert(r.pending() =~= raw_points(samples@, sample_time, polarity, baseline));
        }
        r
    }
}

impl<'a> Stream for RawTrace<'a> {
    type Item = (Real, Real);

    closed spec fn pending(&self) -> Seq<(Real, Real)> {
        raw_points(self.samples@, self.sample_time, self.polarity, self.baseline).skip(
            self.position as int,
        )
    }

    closed spec fn wf(&self) -> bool {
        self.position <= self.samples@.len()
    }

    fn next(&mut self) -> (r: Option<(Real, Real)>) {
        if self.position < self.samples.len() {
            let sample = self.samples[self.position];
            let excess = real_sub(real_from_int(sample as i64), self.baseline);
            let value = match self.polarity {
                Polarity::Positive => excess,
                Polarity::Negative => real_sub(0, excess),
            };
            let time = real_scale(self.sample_time, self.position);
            self.position += 1;
            proof {
                let all = raw_points(self.samples@, self.sample_time, self.polarity, self.baseline);
                assert(all.skip(self.position as int) =~= all.skip(old(self).position as int).skip(
                    1,
                ));
            }
            Some((time, value))
        } else {
            None
        }
    }
}

/// The times of some events, in whole ticks.
pub open spec fn times_of<E>(events: Seq<(Real, E)>) -> Seq<Time> {
    Seq::new(events.len(), |i: int| to_time_spec(events[i].0))
}

/// The settings of the detector that the fixed threshold discriminator's settings ask for.
pub open spec fn fixed_settings(
    parameters: FixedThresholdDiscriminatorParameters,
) -> ThresholdDuration {
    ThresholdDuration {
        threshold: parameters.threshold,
        duration: parameters.duration,
        cool_off: parameters.cool_off,
    }
}

/// The events that the fixed threshold detector finds in a trace.
pub open spec fn fixed_threshold_events(
    samples: Seq<Intensity>,
    sample_time: Real,
    polarity: Polarity,
    baseline: Real,
    parameters: FixedThresholdDiscriminatorParameters,
) -> Seq<crate::pulse_detection::detectors::threshold_detector::ThresholdEvent> {
    detected(
        ThresholdDetector::spec_new(fixed_settings(parameters)),
        raw_points(samples, sample_time, polarity, baseline),
    )
}

/// The times and heights of the events that the fixed threshold detector finds in a trace.
pub open spec fn fixed_threshold_lists(
    samples: Seq<Intensity>,
    sample_time: Real,
    polarity: Polarity,
    baseline: Real,
    parameters: FixedThresholdDiscriminatorParameters,
) -> (Seq<Time>, Seq<Intensity>) {
    let events = fixed_threshold_events(samples, sample_time, polarity, baseline, parameters);
    (
        times_of(events),
        Seq::new(events.len(), |i: int| to_intensity_spec(events[i].1.pulse_height)),
    )
}

/// Finds the events of a trace with the fixed threshold detector.
///
/// `sample_time` is the time from one sample to the next.
pub fn find_fixed_threshold_events(
    trace: &[Intensity],
    sample_time: Real,
    polarity: &Polarity,
    baseline: Real,
    parameters: &FixedThresholdDiscriminatorParameters,
) -> (r: (Vec<Time>, Vec<Intensity>))
    ensures
        (r.0@, r.1@) == fixed_threshold_lists(
            trace@,
            sample_time,
            *polarity,
            baseline,
            *parameters,
        ),
{
    let raw = RawTrace::new(trace, sample_time, *polarity, baseline);
    let mut pulses = raw.events(
        ThresholdDetector::new(
            &ThresholdDuration {
                threshold: parameters.threshold,
                duration: parameters.duration,
                cool_off: parameters.cool_off,
            },
        ),
    );
    let found = collect(&mut pulses);

    let mut time: Vec<Time> = Vec::new();
    let mut voltage: Vec<Intensity> = Vec::new();
    for i in 0..found.len()
        invariant
            time@.len() == i,
            voltage@.len() == i,
            forall|j: int| 0 <= j < i ==> time@[j] == to_time_spec(found@[j].0),
            forall|j: int| 0 <= j < i ==> voltage@[j] == to_intensity_spec(found@[j].1.pulse_height),
    {
        let pulse = found[i];
        time.push(to_time(pulse.0));
        voltage.push(to_intensity(pulse.1.pulse_height));
    }
    proof {
        let lists = fixed_threshold_lists(trace@, sample_time, *polarity, baseline, *parameters);
        assert(time@ =~= lists.0);
        assert(voltage@ =~= lists.1);
    }
    (time, voltage)
}

/// The settings of the detector that the differential threshold
/// discriminator's settings ask for: its durations are counts of samples,
/// each one unit of time long.
pub open spec fn differential_settings(
    parameters: DifferentialThresholdDiscriminatorParameters,
) -> DifferentialThresholdParameters {
    DifferentialThresholdParameters {
        begin_threshold: parameters.begin_threshold,
        begin_duration: real_from_int_spec(parameters.begin_duration as int),
        end_threshold: parameters.end_threshold,
        end_duration: real_from_int_spec(parameters.end_duration as int),
        cool_off: real_from_int_spec(parameters.cool_off as int),
    }
}

/// The events that the differential threshold detector finds in a trace.
pub open spec fn differential_threshold_events(
    samples: Seq<Intensity>,
    sample_time: Real,
    polarity: Polarity,
    baseline: Real,
    parameters: DifferentialThresholdDiscriminatorParameters,
) -> Seq<crate::pulse_detection::detectors::differential_threshold_detector::ThresholdEvent> {
    detected(
        DifferentialThresholdDetector::spec_new(
            differential_settings(parameters),
            parameters.peak_height_mode,
        ),
        windowed::<FiniteDifferences<2>>(
            Seq::empty(),
            raw_points(samples, sample_time, polarity, baseline),
        ),
    )
}

/// The height that an event is given out with.
pub open spec fn height_on_basis(basis: PeakHeightBasis, data: Data) -> Real {
    match basis {
        PeakHeightBasis::TraceBaseline => data.peak_height,
        PeakHeightBasis::PulseBaseline => real_sub_spec(data.peak_height, data.base_height),
    }
}

/// The times and heights of the events that the differential threshold detector finds in a trace.
pub open spec fn differential_threshold_lists(
    samples: Seq<Intensity>,
    sample_time: Real,
    polarity: Polarity,
    baseline: Real,
    parameters: DifferentialThresholdDiscriminatorParameters,
) -> (Seq<Time>, Seq<Intensity>) {
    let events = differential_threshold_events(samples, sample_time, polarity, baseline, parameters);
    (
        times_of(events),
        Seq::new(
            events.len(),
            |i: int| to_intensity_spec(height_on_basis(parameters.peak_height_basis, events[i].1)),
        ),
    )
}

/// Finds the events of a trace with the differential threshold detector.
///
/// `sample_time` is the time from one sample to the next.
pub fn find_differential_threshold_events(
    trace: &[Intensity],
    sample_time: Real,
    polarity: &Polarity,
    baseline: Real,
    parameters: &DifferentialThresholdDiscriminatorParameters,
) -> (r: (Vec<Time>, Vec<Intensity>))
    ensures
        (r.0@, r.1@) == differential_threshold_lists(
            trace@,
            sample_time,
            *polarity,
            baseline,
            *parameters,
        ),
{
    let raw = RawTrace::new(trace, sample_time, *polarity, baseline);
    let mut pulses = raw.window(FiniteDifferences::<2>::new()).events(
        DifferentialThresholdDetector::new(
            &DifferentialThresholdParameters {
                begin_threshold: parameters.begin_threshold,
                begin_duration: real_from_int(parameters.begin_duration as i64),
                end_threshold: parameters.end_threshold,
                end_duration: real_from_int(parameters.end_duration as i64),
                cool_off: real_from_int(parameters.cool_off as i64),
            },
            parameters.peak_height_mode,
        ),
    );
    let found = collect(&mut pulses);

    let mut time: Vec<Time> = Vec::new();
    let mut voltage: Vec<Intensity> = Vec::new();
    for i in 0..found.len()
        invariant
            time@.len() == i,
            voltage@.len() == i,
            forall|j: int| 0 <= j < i ==> time@[j] == to_time_spec(found@[j].0),
            forall|j: int|
                0 <= j < i ==> voltage@[j] == to_intensity_spec(
                    height_on_basis(parameters.peak_height_basis, found@[j].1),
                ),
    {
        let pulse = found[i];
        time.push(to_time(pulse.0));
        voltage.push(
            match parameters.peak_height_basis {
                PeakHeightBasis::TraceBaseline => to_intensity(pulse.1.peak_height),
                PeakHeightBasis::PulseBaseline => to_intensity(
                    real_sub(pulse.1.peak_height, pulse.1.base_height),
                ),
            },
        );
    }
    proof {
        let lists = differential_threshold_lists(
            trace@,
            sample_time,
            *polarity,
            baseline,
            *parameters,
        );
        assert(time@ =~= lists.0);
        assert(voltage@ =~= lists.1);
    }
    (time, voltage)
}

/// The value of an optional setting, or `default` where it is not set.
pub open spec fn setting_or<T>(setting: Option<T>, default: T) -> T {
    match setting {
        Some(value) => value,
        None => default,
    }
}

/// The pulses that the advanced muon detector and its assembler find in a
/// trace: the baseline is taken off the trace, the trace is averaged, and the
/// detector runs on the means and their first differences.
pub open spec fn advanced_pulses(
    samples: Seq<Intensity>,
    sample_time: Real,
    polarity: Polarity,
    baseline: Real,
    parameters: AdvancedMuonDetectorParameters,
) -> Seq<Pulse> {
    let raw = raw_points(samples, sample_time, polarity, baseline);
    let level = windowed::<Baseline>(
        Baseline::spec_new(setting_or(parameters.baseline_length, 0), BASELINE_BIAS),
        raw,
    );
    let smoothed = means(
        windowed::<SmoothingWindow>(
            SmoothingModel {
                size: setting_or(parameters.smoothing_window_size, 1) as nat,
                values: Seq::empty(),
            },
            level,
        ),
    );
    let events = detected(
        AdvancedMuonDetector::spec_new(
            parameters.muon_onset,
            parameters.muon_fall,
            parameters.muon_termination,
            parameters.duration,
        ),
        windowed::<FiniteDifferences<2>>(Seq::empty(), smoothed),
    );
    assembled(AdvancedMuonAssembler::spec_new(), events)
}

/// Whether the peak of a pulse lies within the bounds that are set. A pulse
/// without a peak value lies within any bounds.
pub open spec fn within_amplitude(
    min_amplitude: Option<Real>,
    max_amplitude: Option<Real>,
    pulse: Pulse,
) -> bool {
    &&& min_amplitude is Some && pulse.peak.value is Some ==> min_amplitude->0
        <= pulse.peak.value->0
    &&& max_amplitude is Some && pulse.peak.value is Some ==> max_amplitude->0
        >= pulse.peak.value->0
}

/// Tests whether the peak of a pulse lies within the bounds that are set.
pub fn is_within_amplitude(
    min_amplitude: Option<Real>,
    max_amplitude: Option<Real>,
    pulse: &Pulse,
) -> (r: bool)
    ensures
        r == within_amplitude(min_amplitude, max_amplitude, *pulse),
{
    let above = match (min_amplitude, pulse.peak.value) {
        (Some(min), Some(value)) => min <= value,
        _ => true,
    };
    let below = match (max_amplitude, pulse.peak.value) {
        (Some(max), Some(value)) => max >= value,
        _ => true,
    };
    above && below
}

/// The pulses of a trace whose peaks lie within the bounds that are set.
pub open spec fn advanced_pulses_kept(
    samples: Seq<Intensity>,
    sample_time: Real,
    polarity: Polarity,
    baseline: Real,
    parameters: AdvancedMuonDetectorParameters,
) -> Seq<Pulse> {
    advanced_pulses(samples, sample_time, polarity, baseline, parameters).filter(
        |pulse: Pulse| within_amplitude(parameters.min_amplitude, parameters.max_amplitude, pulse),
    )
}

/// The times and heights of the pulses that the advanced muon detector finds
/// in a trace: the time of a pulse is that of its steepest rise, its height
/// the value of its peak, and zero stands for what is missing.
pub open spec fn advanced_lists(
    samples: Seq<Intensity>,
    sample_time: Real,
    polarity: Polarity,
    baseline: Real,
    parameters: AdvancedMuonDetectorParameters,
) -> (Seq<Time>, Seq<Intensity>) {
    let pulses = advanced_pulses_kept(samples, sample_time, polarity, baseline, parameters);
    (
        Seq::new(pulses.len(), |i: int| to_time_spec(setting_or(pulses[i].steepest_rise.time, 0))),
        Seq::new(pulses.len(), |i: int| to_intensity_spec(setting_or(pulses[i].peak.value, 0))),
    )
}

/// Finds the events of a trace with the advanced muon detector.
///
/// `sample_time` is the time from one sample to the next.
pub fn find_advanced_events(
    trace: &[Intensity],
    sample_time: Real,
    polarity: &Polarity,
    baseline: Real,
    parameters: &AdvancedMuonDetectorParameters,
) -> (r: (Vec<Time>, Vec<Intensity>))
    ensures
        (r.0@, r.1@) == advanced_lists(trace@, sample_time, *polarity, baseline, *parameters),
{
    let raw = RawTrace::new(trace, sample_time, *polarity, baseline);
    let baseline_length = match parameters.baseline_length {
        Some(length) => length,
        None => 0,
    };
    let smoothing_window_size = match parameters.smoothing_window_size {
        Some(size) => size,
        None => 1,
    };
    let smoothed = MeanIter::new(
        raw.window(Baseline::new(baseline_length, BASELINE_BIAS)).window(
            SmoothingWindow::new(smoothing_window_size),
        ),
    );
    let events = smoothed.window(FiniteDifferences::<2>::new()).events(
        AdvancedMuonDetector::new(
            parameters.muon_onset,
            parameters.muon_fall,
            parameters.muon_termination,
            parameters.duration,
        ),
    );
    let mut pulses = events.assemble(AdvancedMuonAssembler::default());
    let found = collect(&mut pulses);
    let ghost keep = |pulse: Pulse|
        within_amplitude(parameters.min_amplitude, parameters.max_amplitude, pulse);

    let mut time: Vec<Time> = Vec::new();
    let mut voltage: Vec<Intensity> = Vec::new();
    for i in 0..found.len()
        invariant
            keep == |pulse: Pulse|
                within_amplitude(parameters.min_amplitude, parameters.max_amplitude, pulse),
            time@.len() == found@.take(i as int).filter(keep).len(),
            voltage@.len() == time@.len(),
            forall|j: int|
                0 <= j < time@.len() ==> time@[j] == to_time_spec(
                    setting_or(found@.take(i as int).filter(keep)[j].steepest_rise.time, 0),
                ),
            forall|j: int|
                0 <= j < time@.len() ==> voltage@[j] == to_intensity_spec(
                    setting_or(found@.take(i as int).filter(keep)[j].peak.value, 0),
                ),
    {
        let pulse = found[i];
        proof {
            reveal(Seq::filter);
            assert(found@.take(i + 1).drop_last() =~= found@.take(i as int));
        }
        if is_within_amplitude(parameters.min_amplitude, parameters.max_amplitude, &pulse) {
            time.push(
                to_time(
                    match pulse.steepest_rise.time {
                        Some(t) => t,
                        None => 0,
                    },
                ),
            );
            voltage.push(
                to_intensity(
                    match pulse.peak.value {
                        Some(v) => v,
                        None => 0,
                    },
                ),
            );
        }
    }
    proof {
        assert(found@.take(found.len() as int) =~= found@);
        let lists = advanced_lists(trace@, sample_time, *polarity, baseline, *parameters);
        assert(time@ =~= lists.0);
        assert(voltage@ =~= lists.1);
    }
    (time, voltage)
}

/// The times of the trace points of a trace never fall, where the time from
/// one sample to the next is not negative.
pub proof fn lemma_raw_points_never_fall(
    samples: Seq<Intensity>,
    sample_time: Real,
    polarity: Polarity,
    baseline: Real,
)
    requires
        sample_time >= 0,
    ensures
        times_never_fall(raw_points(samples, sample_time, polarity, baseline)),
{
    let points = raw_points(samples, sample_time, polarity, baseline);
    assert forall|i: int, j: int| 0 <= i <= j < points.len() implies points[i].0
        <= points[j].0 by {
        assert(sample_time * i <= sample_time * j) by (nonlinear_arith)
            requires
                sample_time >= 0,
                i <= j,
        ;
    }
}

/// What holds of every one of some pulses holds of every one that is kept of them.
pub proof fn lemma_kept_are_in_order(pulses: Seq<Pulse>, keep: spec_fn(Pulse) -> bool)
    requires
        forall|i: int| 0 <= i < pulses.len() ==> is_in_order(#[trigger] pulses[i]),
    ensures
        forall|i: int|
            0 <= i < pulses.filter(keep).len() ==> is_in_order(#[trigger] pulses.filter(keep)[i]),
    decreases pulses.len(),
{
    reveal(Seq::filter);
    if pulses.len() > 0 {
        let shorter = pulses.drop_last();
        assert forall|i: int| 0 <= i < shorter.len() implies is_in_order(#[trigger] shorter[i]) by {
            assert(shorter[i] == pulses[i]);
        }
        lemma_kept_are_in_order(shorter, keep);
        assert(is_in_order(pulses[pulses.len() - 1]));
        let kept = pulses.filter(keep);
        let kept_before = shorter.filter(keep);
        assert forall|i: int| 0 <= i < kept.len() implies is_in_order(#[trigger] kept[i]) by {
            if keep(pulses.last()) {
                assert(kept == kept_before.push(pulses.last()));
                if i < kept_before.len() {
                    assert(kept[i] == kept_before[i]);
                }
            } else {
                assert(kept == kept_before);
            }
        }
    }
}

/// Every pulse that the advanced muon detector finds in a trace has its
/// start, its peak and its end, in this order, where the time from one
/// sample to the next is not negative.
pub proof fn lemma_advanced_pulses_are_in_order(
    samples: Seq<Intensity>,
    sample_time: Real,
    polarity: Polarity,
    baseline: Real,
    parameters: AdvancedMuonDetectorParameters,
)
    requires
        sample_time >= 0,
    ensures
        forall|i: int|
            0 <= i < advanced_pulses(
                samples,
                sample_time,
                polarity,
                baseline,
                parameters,
            ).len() ==> is_in_order(
                #[trigger] advanced_pulses(samples, sample_time, polarity, baseline, parameters)[i],
            ),
        forall|i: int|
            0 <= i < advanced_pulses_kept(
                samples,
                sample_time,
                polarity,
                baseline,
                parameters,
            ).len() ==> is_in_order(
                #[trigger] advanced_pulses_kept(
                    samples,
                    sample_time,
                    polarity,
                    baseline,
                    parameters,
                )[i],
            ),
{
    let raw = raw_points(samples, sample_time, polarity, baseline);
    let start = Baseline::spec_new(setting_or(parameters.baseline_length, 0), BASELINE_BIAS);
    let level = windowed::<Baseline>(start, raw);
    let window = SmoothingModel {
        size: setting_or(parameters.smoothing_window_size, 1) as nat,
        values: Seq::empty(),
    };
    let smoothed = means(windowed::<SmoothingWindow>(window, level));
    let differences = windowed::<FiniteDifferences<2>>(Seq::empty(), smoothed);
    let detector = AdvancedMuonDetector::spec_new(
        parameters.muon_onset,
        parameters.muon_fall,
        parameters.muon_termination,
        parameters.duration,
    );
    lemma_raw_points_never_fall(samples, sample_time, polarity, baseline);
    lemma_windowed_times_never_fall::<Baseline>(start, raw);
    lemma_windowed_times_never_fall::<SmoothingWindow>(window, level);
    lemma_means_never_fall(windowed::<SmoothingWindow>(window, level));
    lemma_windowed_times_never_fall::<FiniteDifferences<2>>(Seq::empty(), smoothed);
    let now = if differences.len() > 0 {
        differences[0].0
    } else {
        0
    };
    lemma_pulses_are_in_order(detector, AdvancedMuonAssembler::spec_new(), now, differences);
    lemma_kept_are_in_order(
        advanced_pulses(samples, sample_time, polarity, baseline, parameters),
        |pulse: Pulse| within_amplitude(parameters.min_amplitude, parameters.max_amplitude, pulse),
    );
}

/// The times and heights of the events of a trace under the given settings.
pub open spec fn channel_lists(
    samples: Seq<Intensity>,
    sample_time: Real,
    mode: Mode,
    polarity: Polarity,
    baseline: Intensity,
) -> (Seq<Time>, Seq<Intensity>) {
    let level = real_from_int_spec(baseline as int);
    match mode {
        Mode::FixedThresholdDiscriminator(parameters) => fixed_threshold_lists(
            samples,
            sample_time,
            polarity,
            level,
            parameters,
        ),
        Mode::DifferentialThresholdDiscriminator(parameters) => differential_threshold_lists(
            samples,
            sample_time,
            polarity,
            level,
            parameters,
        ),
        Mode::AdvancedMuonDetector(parameters) => advanced_lists(
            samples,
            sample_time,
            polarity,
            level,
            parameters,
        ),
    }
}

/// Finds the events of a trace with the detector that the settings name.
///
/// `sample_time` is the time from one sample to the next.
pub fn find_channel_events(
    trace: &[Intensity],
    sample_time: Real,
    detector_settings: &DetectorSettings,
) -> (r: (Vec<Time>, Vec<Intensity>))
    ensures
        (r.0@, r.1@) == channel_lists(
            trace@,
            sample_time,
            *detector_settings.mode,
            *detector_settings.polarity,
            detector_settings.baseline,
        ),
        r.0@.len() == r.1@.len(),
{
    let baseline = real_from_int(detector_settings.baseline as i64);
    match detector_settings.mode {
        Mode::FixedThresholdDiscriminator(parameters) => find_fixed_threshold_events(
            trace,
            sample_time,
            detector_settings.polarity,
            baseline,
            parameters,
        ),
        Mode::DifferentialThresholdDiscriminator(parameters) => find_differential_threshold_events(
            trace,
            sample_time,
            detector_settings.polarity,
            baseline,
            parameters,
        ),
        Mode::AdvancedMuonDetector(parameters) => find_advanced_events(
            trace,
            sample_time,
            detector_settings.polarity,
            baseline,
            parameters,
        ),
    }
}

} // verus!
