//! The settings of the detectors.
use crate::fixed::{Intensity, Real};
use vstd::prelude::*;

verus! {

/// Which way a pulse moves the trace.
#[derive(Clone, Copy, Debug, PartialEq, Eq, Structural)]
pub enum Polarity {
    /// Pulses register as positive signals.
    Positive,
    /// Pulses register as negative signals.
    Negative,
}

/// How the height of a pulse's peak is found.
#[derive(Clone, Copy, Debug, PartialEq, Eq, Structural)]
pub enum PeakHeightMode {
    /// The largest trace value between the begin trigger and the end trigger.
    MaxValue,
    /// The trace value just before the end trigger.
    ValueAtEndTrigger,
}

impl Default for PeakHeightMode {
    fn default() -> (r: Self)
        ensures
            r == PeakHeightMode::MaxValue,
    {
        PeakHeightMode::MaxValue
    }
}

/// What the height of a pulse's peak is measured from.
#[derive(Clone, Copy, Debug, PartialEq, Eq, Structural)]
pub enum PeakHeightBasis {
    /// The baseline of the trace.
    TraceBaseline,
    /// The trace value at which the pulse was first detected.
    PulseBaseline,
}

impl Default for PeakHeightBasis {
    fn default() -> (r: Self)
        ensures
            r == PeakHeightBasis::TraceBaseline,
    {
        PeakHeightBasis::TraceBaseline
    }
}

} // verus!

verus! {

/// The settings of the fixed threshold discriminator.
#[derive(Clone, Copy, Debug)]
pub struct FixedThresholdDiscriminatorParameters {
    /// An event is registered when the trace stays above this value for the given duration.
    pub threshold: Real,
    /// For how many samples the trace must stay above the threshold.
    pub duration: i32,
    /// For how many samples the detector rests after an event.
    pub cool_off: i32,
}

/// The settings of the differential threshold discriminator.
#[derive(Clone, Copy, Debug)]
pub struct DifferentialThresholdDiscriminatorParameters {
    /// A detection begins when the trace's difference reaches this value.
    pub begin_threshold: Real,
    /// For how many samples the difference must stay there for the detection to stand.
    pub begin_duration: i32,
    /// A detection ends when the trace's difference falls to this value.
    pub end_threshold: Real,
    /// For how many samples the difference must stay there for the detection to end.
    pub end_duration: i32,
    /// For how many samples the detector rests after a detection.
    pub cool_off: i32,
    /// How the height of a peak is found.
    pub peak_height_mode: PeakHeightMode,
    /// What the height of a peak is measured from.
    pub peak_height_basis: PeakHeightBasis,
}

/// The settings of the advanced muon detector.
#[derive(Clone, Copy, Debug)]
pub struct AdvancedMuonDetectorParameters {
    /// The difference above which a pulse begins to rise.
    pub muon_onset: Real,
    /// The difference below which a pulse is past its peak.
    pub muon_fall: Real,
    /// The difference above which a pulse has ended.
    pub muon_termination: Real,
    /// How long each of the three must last to count.
    pub duration: Real,
    /// How many samples at the start of the trace give its baseline.
    pub baseline_length: Option<usize>,
    /// Over how many samples the trace is averaged.
    pub smoothing_window_size: Option<usize>,
    /// Pulses with a higher peak are left out.
    pub max_amplitude: Option<Real>,
    /// Pulses with a lower peak are left out.
    pub min_amplitude: Option<Real>,
}

/// The detector to use, with its settings.
#[derive(Clone, Copy, Debug)]
pub enum Mode {
    /// Events are found where the trace passes a fixed threshold.
    FixedThresholdDiscriminator(FixedThresholdDiscriminatorParameters),
    /// Events are found where the trace's difference passes a threshold.
    DifferentialThresholdDiscriminator(DifferentialThresholdDiscriminatorParameters),
    /// Events are found by the onset, fall and termination of the trace's difference.
    AdvancedMuonDetector(AdvancedMuonDetectorParameters),
}

/// All that a detection needs to know of a trace beside its samples.
#[derive(Clone, Copy, Debug)]
pub struct DetectorSettings<'a> {
    /// The detector to use.
    pub mode: &'a Mode,
    /// The polarity of the trace.
    pub polarity: &'a Polarity,
    /// The baseline of the trace.
    pub baseline: Intensity,
}

} // verus!
