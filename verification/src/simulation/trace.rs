//! The traces of a simulation.
//!
//! A trace is made sample by sample: the values of the pulses of its event
//! list add up to a signal, the signal is taken to a voltage, and each source
//! of noise adds to it in turn. What a pulse is worth at a time, and what a
//! source of noise draws, is asked of the model.
use super::event_list::EventList;
use super::model::PulseModel;
use super::noise::{noise_error, noisify_step, Noise, NoiseSource};
use super::utils::{Environment, JsonNumError, Transformation};
use super::{FrameNumber, Simulation, SimulationError};
use crate::fixed::{
    real_add, real_add_spec, real_div_int, real_div_int_spec, real_from_int, real_from_int_spec,
    real_mul, real_mul_spec, real_scale, real_scale_spec, to_intensity, to_intensity_spec,
    Intensity, Real, Time,
};
use vstd::prelude::*;

verus! {

/// A simulated trace.
#[derive(Clone, Debug, PartialEq)]
pub struct Trace {
    /// The samples of the trace.
    pub intensities: Vec<Intensity>,
}

/// The number of nanoseconds in a second.
pub const NANOSECONDS: i64 = 1_000_000_000;

/// The time from one sample to the next, in nanoseconds, at `sample_rate`
/// samples per second. At no samples per second it is the greatest scalar.
pub open spec fn sample_time_at(sample_rate: int) -> Real {
    if sample_rate == 0 {
        i64::MAX
    } else {
        real_div_int_spec(real_from_int_spec(NANOSECONDS as int), sample_rate)
    }
}

/// The time from one sample to the next, in nanoseconds.
pub fn sample_time(sample_rate: u64) -> (r: Real)
    ensures
        r == sample_time_at(sample_rate as int),
{
    if sample_rate == 0 {
        i64::MAX
    } else {
        real_div_int(real_from_int(NANOSECONDS), sample_rate)
    }
}

/// The time, in nanoseconds, at which the sample at the place `bin` stands.
pub open spec fn bin_time_at(sample_rate: int, bin: int) -> Real {
    real_scale_spec(sample_time_at(sample_rate), bin)
}

/// The time, in nanoseconds, at which the sample at the place `bin` stands.
pub fn bin_time(sample_rate: u64, bin: Time) -> (r: Real)
    ensures
        r == bin_time_at(sample_rate as int, bin as int),
{
    real_scale(sample_time(sample_rate), bin as usize)
}

/// The value of a line at the scalar `x`.
pub open spec fn line_at(line: Transformation<Real>, x: Real) -> Real {
    real_add_spec(real_mul_spec(x, line.scale), line.translate)
}

/// The value of a line at the scalar `x`.
pub fn transform_scalar(line: &Transformation<Real>, x: Real) -> (r: Real)
    ensures
        r == line_at(*line, x),
{
    real_add(real_mul(x, line.scale), line.translate)
}

/// The sum of some values, added up in their order.
pub open spec fn sum_of_values(values: Seq<Real>) -> Real
    decreases values.len(),
{
    if values.len() == 0 {
        0
    } else {
        real_add_spec(sum_of_values(values.drop_last()), values.last())
    }
}

/// Adds some values up in their order.
pub fn sum_values(values: &Vec<Real>) -> (r: Real)
    ensures
        r == sum_of_values(values@),
{
    let mut sum: Real = 0;
    for i in 0..values.len()
        invariant
            sum == sum_of_values(values@.take(i as int)),
    {
        proof {
            assert(values@.take(i + 1).drop_last() =~= values@.take(i as int));
        }
        sum = real_add(sum, values[i]);
    }
    proof {
        assert(values@.take(values@.len() as int) =~= values@);
    }
    sum
}

/// The voltage of a sample at which the pulses are worth `values`.
pub open spec fn voltage_of(line: Transformation<Real>, values: Seq<Real>) -> Real {
    line_at(line, sum_of_values(values))
}

/// Why the first of some sources of noise that gives no noise gives none.
pub open spec fn first_noise_error<A>(
    sources: Seq<NoiseSource<A>>,
    frame_index: int,
    environment: Seq<(Seq<char>, Seq<char>)>,
) -> Option<JsonNumError>
    decreases sources.len(),
{
    if sources.len() == 0 {
        None
    } else {
        match first_noise_error(sources.drop_last(), frame_index, environment) {
            Some(error) => Some(error),
            None => noise_error(sources.last(), frame_index, environment),
        }
    }
}

/// Where every source gives noise, there is no first that gives none.
pub proof fn lemma_no_noise_error<A>(
    sources: Seq<NoiseSource<A>>,
    frame_index: int,
    environment: Seq<(Seq<char>, Seq<char>)>,
)
    requires
        forall|j: int|
            0 <= j < sources.len() ==> noise_error(#[trigger] sources[j], frame_index, environment)
                is None,
    ensures
        first_noise_error(sources, frame_index, environment) is None,
    decreases sources.len(),
{
    if sources.len() > 0 {
        assert forall|j: int| 0 <= j < sources.drop_last().len() implies noise_error(
            #[trigger] sources.drop_last()[j],
            frame_index,
            environment,
        ) is None by {
            assert(sources.drop_last()[j] == sources[j]);
        }
        lemma_no_noise_error(sources.drop_last(), frame_index, environment);
        assert(noise_error(sources[sources.len() - 1], frame_index, environment) is None);
    }
}

/// The first source that gives no noise decides the error.
pub proof fn lemma_first_noise_error_at<A>(
    sources: Seq<NoiseSource<A>>,
    k: int,
    frame_index: int,
    environment: Seq<(Seq<char>, Seq<char>)>,
)
    requires
        0 <= k < sources.len(),
        forall|j: int|
            0 <= j < k ==> noise_error(#[trigger] sources[j], frame_index, environment) is None,
        noise_error(sources[k], frame_index, environment) is Some,
    ensures
        first_noise_error(sources, frame_index, environment) == noise_error(
            sources[k],
            frame_index,
            environment,
        ),
    decreases sources.len(),
{
    let shorter = sources.drop_last();
    if k == sources.len() - 1 {
        assert forall|j: int| 0 <= j < shorter.len() implies noise_error(
            #[trigger] shorter[j],
            frame_index,
            environment,
        ) is None by {
            assert(shorter[j] == sources[j]);
        }
        lemma_no_noise_error(shorter, frame_index, environment);
    } else {
        assert forall|j: int| 0 <= j < k implies noise_error(
            #[trigger] shorter[j],
            frame_index,
            environment,
        ) is None by {
            assert(shorter[j] == sources[j]);
        }
        assert(shorter[k] == sources[k]);
        lemma_first_noise_error_at(shorter, k, frame_index, environment);
    }
}

/// The sources of some noises.
pub open spec fn sources_of<A>(noises: Seq<Noise<A>>) -> Seq<NoiseSource<A>> {
    Seq::new(noises.len(), |k: int| noises[k].source())
}

/// The samples that each of some noises holds.
pub open spec fn recents_of<A>(noises: Seq<Noise<A>>) -> Seq<Seq<Real>> {
    Seq::new(noises.len(), |k: int| noises[k].recent())
}

/// The value that the first `count` noises make of `value`, each adding its
/// own noise to what the one before it gave. The noise at the place `k` has
/// the source `sources[k]`, holds the samples `recents[k]`, and `draws[k]`
/// was drawn for it.
pub open spec fn noisified<A>(
    sources: Seq<NoiseSource<A>>,
    recents: Seq<Seq<Real>>,
    count: nat,
    value: Real,
    time: Time,
    frame_index: int,
    environment: Seq<(Seq<char>, Seq<char>)>,
    draws: Seq<Real>,
) -> Result<Real, JsonNumError>
    decreases count,
{
    if count == 0 {
        Ok(value)
    } else {
        match noisified(
            sources,
            recents,
            (count - 1) as nat,
            value,
            time,
            frame_index,
            environment,
            draws,
        ) {
            Err(error) => Err(error),
            Ok(before) => match noisify_step(
                sources[count - 1],
                recents[count - 1],
                before,
                time,
                frame_index,
                environment,
                draws[count - 1],
            ) {
                Err(error) => Err(error),
                Ok(step) => Ok(step.1),
            },
        }
    }
}

/// The samples that the noise at the place `k` holds after all noises have
/// added to `value` in turn.
pub open spec fn held_after<A>(
    sources: Seq<NoiseSource<A>>,
    recents: Seq<Seq<Real>>,
    k: int,
    value: Real,
    time: Time,
    frame_index: int,
    environment: Seq<(Seq<char>, Seq<char>)>,
    draws: Seq<Real>,
) -> Seq<Real> {
    match noisified(sources, recents, k as nat, value, time, frame_index, environment, draws) {
        Err(_) => recents[k],
        Ok(before) => match noisify_step(
            sources[k],
            recents[k],
            before,
            time,
            frame_index,
            environment,
            draws[k],
        ) {
            Err(_) => recents[k],
            Ok(step) => step.0,
        },
    }
}

/// The samples that each noise holds after all noises have added to `value` in turn.
pub open spec fn recents_after<A>(
    sources: Seq<NoiseSource<A>>,
    recents: Seq<Seq<Real>>,
    value: Real,
    time: Time,
    frame_index: int,
    environment: Seq<(Seq<char>, Seq<char>)>,
    draws: Seq<Real>,
) -> Seq<Seq<Real>> {
    Seq::new(
        sources.len(),
        |k: int| held_after(sources, recents, k, value, time, frame_index, environment, draws),
    )
}

/// Noise fails where one of its sources gives no noise, and for the reason of the first such.
pub proof fn lemma_noises_fail_by_their_sources<A>(
    sources: Seq<NoiseSource<A>>,
    recents: Seq<Seq<Real>>,
    count: nat,
    value: Real,
    time: Time,
    frame_index: int,
    environment: Seq<(Seq<char>, Seq<char>)>,
    draws: Seq<Real>,
)
    requires
        count <= sources.len(),
    ensures
        match noisified(sources, recents, count, value, time, frame_index, environment, draws) {
            Ok(_) => first_noise_error(sources.take(count as int), frame_index, environment)
                is None,
            Err(error) => first_noise_error(sources.take(count as int), frame_index, environment)
                == Some(error),
        },
    decreases count,
{
    if count > 0 {
        lemma_noises_fail_by_their_sources(
            sources,
            recents,
            (count - 1) as nat,
            value,
            time,
            frame_index,
            environment,
            draws,
        );
        assert(sources.take(count as int).drop_last() =~= sources.take(count - 1));
        assert(sources.take(count as int).last() == sources[count - 1]);
    }
}

/// Once a noise has failed, those after it do not change that.
pub proof fn lemma_noisified_stays_failed<A>(
    sources: Seq<NoiseSource<A>>,
    recents: Seq<Seq<Real>>,
    failed: nat,
    count: nat,
    value: Real,
    time: Time,
    frame_index: int,
    environment: Seq<(Seq<char>, Seq<char>)>,
    draws: Seq<Real>,
)
    requires
        failed <= count,
        noisified(sources, recents, failed, value, time, frame_index, environment, draws) is Err,
    ensures
        noisified(sources, recents, count, value, time, frame_index, environment, draws)
            == noisified(sources, recents, failed, value, time, frame_index, environment, draws),
    decreases count,
{
    if failed < count {
        lemma_noisified_stays_failed(
            sources,
            recents,
            failed,
            (count - 1) as nat,
            value,
            time,
            frame_index,
            environment,
            draws,
        );
    }
}

/// Lets each of `noises` in turn add its noise to `value`, where `draws`
/// holds what was drawn for each.
pub fn apply_noises<A>(
    noises: &mut Vec<Noise<'_, A>>,
    value: Real,
    time: Time,
    frame_index: usize,
    environment: &Environment,
    draws: &Vec<Real>,
) -> (r: Result<Real, JsonNumError>)
    requires
        draws@.len() == old(noises)@.len(),
    ensures
        r == noisified(
            sources_of(old(noises)@),
            recents_of(old(noises)@),
            old(noises)@.len(),
            value,
            time,
            frame_index as int,
            environment@,
            draws@,
        ),
        sources_of(final(noises)@) == sources_of(old(noises)@),
        r is Ok ==> recents_of(final(noises)@) == recents_after(
            sources_of(old(noises)@),
            recents_of(old(noises)@),
            value,
            time,
            frame_index as int,
            environment@,
            draws@,
        ),
{
    let mut current = value;
    let n = noises.len();
    let ghost sources = sources_of(noises@);
    let ghost recents = recents_of(noises@);
    for k in 0..n
        invariant
            n == noises@.len(),
            noises@.len() == old(noises)@.len(),
            draws@.len() == n,
            sources == sources_of(old(noises)@),
            recents == recents_of(old(noises)@),
            sources_of(noises@) =~= sources,
            forall|j: int| k <= j < n ==> noises@[j] == old(noises)@[j],
            noisified(
                sources,
                recents,
                k as nat,
                value,
                time,
                frame_index as int,
                environment@,
                draws@,
            ) == Ok::<Real, JsonNumError>(current),
            forall|j: int|
                0 <= j < k ==> (#[trigger] noises@[j]).recent() == held_after(
                    sources,
                    recents,
                    j,
                    value,
                    time,
                    frame_index as int,
                    environment@,
                    draws@,
                ),
    {
        let ghost before = noises@;
        let noise = &mut noises[k];
        let step = noise.noisify(current, time, frame_index, environment, draws[k]);
        proof {
            assert(before[k as int] == old(noises)@[k as int]);
            assert(sources[k as int] == before[k as int].source());
            assert(recents[k as int] == before[k as int].recent());
        }
        match step {
            Ok(noisy) => {
                current = noisy;
            },
            Err(error) => {
                proof {
                    assert(noisified(
                        sources,
                        recents,
                        (k + 1) as nat,
                        value,
                        time,
                        frame_index as int,
                        environment@,
                        draws@,
                    ) == Err::<Real, JsonNumError>(error));
                    lemma_noisified_stays_failed(
                        sources,
                        recents,
                        (k + 1) as nat,
                        n as nat,
                        value,
                        time,
                        frame_index as int,
                        environment@,
                        draws@,
                    );
                    assert(sources_of(noises@) =~= sources);
                }
                return Err(error);
            },
        }
        proof {
            assert(sources_of(noises@) =~= sources);
        }
    }
    proof {
        assert(recents_of(noises@) =~= recents_after(
            sources,
            recents,
            value,
            time,
            frame_index as int,
            environment@,
            draws@,
        ));
    }
    Ok(current)
}

/// The sample of a trace at the place `time`, where the pulses are worth
/// `values` there and `draws` holds what was drawn for each source of noise:
/// the values add up to the signal, the line takes the signal to a voltage,
/// the noises add to the voltage in turn, and the whole units of what comes
/// of it are the sample.
pub open spec fn sample_of<A>(
    line: Transformation<Real>,
    sources: Seq<NoiseSource<A>>,
    recents: Seq<Seq<Real>>,
    values: Seq<Real>,
    draws: Seq<Real>,
    time: Time,
    frame_index: int,
    environment: Seq<(Seq<char>, Seq<char>)>,
) -> Result<Intensity, JsonNumError> {
    match noisified(
        sources,
        recents,
        sources.len(),
        voltage_of(line, values),
        time,
        frame_index,
        environment,
        draws,
    ) {
        Ok(noisy) => Ok(to_intensity_spec(noisy)),
        Err(error) => Err(error),
    }
}

/// Makes the sample of a trace at the place `time` of what the model gave
/// for it: `values` holds what each pulse is worth there, and `draws` what
/// was drawn for each source of noise.
pub fn make_sample<A>(
    noises: &mut Vec<Noise<'_, A>>,
    line: &Transformation<Real>,
    values: &Vec<Real>,
    draws: &Vec<Real>,
    time: Time,
    frame_index: usize,
    environment: &Environment,
) -> (r: Result<Intensity, JsonNumError>)
    requires
        draws@.len() == old(noises)@.len(),
    ensures
        r == sample_of(
            *line,
            sources_of(old(noises)@),
            recents_of(old(noises)@),
            values@,
            draws@,
            time,
            frame_index as int,
            environment@,
        ),
        sources_of(final(noises)@) == sources_of(old(noises)@),
        r is Ok ==> recents_of(final(noises)@) == recents_after(
            sources_of(old(noises)@),
            recents_of(old(noises)@),
            voltage_of(*line, values@),
            time,
            frame_index as int,
            environment@,
            draws@,
        ),
{
    let voltage = transform_scalar(line, sum_values(values));
    proof {
        assert(sources_of(noises@).len() == noises@.len());
    }
    match apply_noises(noises, voltage, time, frame_index, environment, draws) {
        Ok(noisy) => Ok(to_intensity(noisy)),
        Err(error) => Err(error),
    }
}

/// The samples that each of `count` noises holds before the first sample of a trace: none.
pub open spec fn fresh(count: nat) -> Seq<Seq<Real>> {
    Seq::new(count, |k: int| Seq::<Real>::empty())
}

/// The samples that each noise holds after the first samples of a trace were
/// made, where `values[b]` holds what each pulse is worth at the place `b`
/// and `draws[b]` what was drawn for each source of noise there.
pub open spec fn recents_upto<A>(
    line: Transformation<Real>,
    sources: Seq<NoiseSource<A>>,
    values: Seq<Seq<Real>>,
    draws: Seq<Seq<Real>>,
    frame_index: int,
    environment: Seq<(Seq<char>, Seq<char>)>,
) -> Seq<Seq<Real>>
    decreases values.len(),
{
    if values.len() == 0 {
        fresh(sources.len())
    } else {
        recents_after(
            sources,
            recents_upto(
                line,
                sources,
                values.drop_last(),
                draws.drop_last(),
                frame_index,
                environment,
            ),
            voltage_of(line, values.last()),
            (values.len() - 1) as Time,
            frame_index,
            environment,
            draws.last(),
        )
    }
}

/// The first samples of a trace, where `values[b]` holds what each pulse is
/// worth at the place `b` and `draws[b]` what was drawn for each source of
/// noise there: the sample at each place is made of what the noises hold
/// after the samples before it. A sample that cannot be made counts as zero.
pub open spec fn samples_upto<A>(
    line: Transformation<Real>,
    sources: Seq<NoiseSource<A>>,
    values: Seq<Seq<Real>>,
    draws: Seq<Seq<Real>>,
    frame_index: int,
    environment: Seq<(Seq<char>, Seq<char>)>,
) -> Seq<Intensity>
    decreases values.len(),
{
    if values.len() == 0 {
        Seq::empty()
    } else {
        samples_upto(
            line,
            sources,
            values.drop_last(),
            draws.drop_last(),
            frame_index,
            environment,
        ).push(
            match sample_of(
                line,
                sources,
                recents_upto(
                    line,
                    sources,
                    values.drop_last(),
                    draws.drop_last(),
                    frame_index,
                    environment,
                ),
                values.last(),
                draws.last(),
                (values.len() - 1) as Time,
                frame_index,
                environment,
            ) {
                Ok(sample) => sample,
                Err(_) => 0,
            },
        )
    }
}

/// Whether there are `count` rows, each `width` long.
pub open spec fn shaped(rows: Seq<Seq<Real>>, count: int, width: int) -> bool {
    &&& rows.len() == count
    &&& forall|b: int| 0 <= b < count ==> (#[trigger] rows[b]).len() == width
}

/// Whether `samples` are the samples of a trace of `pulses` pulses and the
/// sources of noise `sources`: there is a value of each pulse at each place,
/// and a draw for each source at each place, of which the samples are made
/// place by place. (Where nothing was drawn for a source, which is not
/// active there, its draw does not count.)
pub open spec fn is_trace_of<A>(
    line: Transformation<Real>,
    pulses: int,
    sources: Seq<NoiseSource<A>>,
    frame_index: int,
    environment: Seq<(Seq<char>, Seq<char>)>,
    samples: Seq<Intensity>,
) -> bool {
    exists|values: Seq<Seq<Real>>, draws: Seq<Seq<Real>>|
        shaped(values, samples.len() as int, pulses) && shaped(
            draws,
            samples.len() as int,
            sources.len() as int,
        ) && samples == #[trigger] samples_upto(
            line,
            sources,
            values,
            draws,
            frame_index,
            environment,
        )
}

/// The number of samples of a trace with the given sources of noise, or why
/// there is no trace: the number of samples or the rate of the samples has no
/// value, or the trace has samples and a source of noise gives no noise.
pub open spec fn trace_length<P, A>(
    simulation: Simulation<P, A>,
    sources: Seq<NoiseSource<A>>,
    frame_index: int,
    environment: Seq<(Seq<char>, Seq<char>)>,
) -> Result<int, JsonNumError> {
    match simulation.time_bins.spec_value(environment) {
        Err(error) => Err(error),
        Ok(time_bins) => match simulation.sample_rate.spec_value(environment) {
            Err(error) => Err(error),
            Ok(_) => if time_bins == 0 {
                Ok(0)
            } else {
                match first_noise_error(sources, frame_index, environment) {
                    Some(error) => Err(error),
                    None => Ok(time_bins),
                }
            },
        },
    }
}

/// A trace has as many samples as the simulation says.
pub proof fn lemma_trace_length_is_time_bins<P, A>(
    simulation: Simulation<P, A>,
    sources: Seq<NoiseSource<A>>,
    frame_index: int,
    environment: Seq<(Seq<char>, Seq<char>)>,
)
    ensures
        trace_length(simulation, sources, frame_index, environment) matches Ok(length)
            ==> simulation.time_bins.spec_value(environment) == Ok::<int, JsonNumError>(length),
{
}

/// Whether the making of a trace can fail with `error`: the number of
/// samples, the rate of the samples or a source of noise has no value, or
/// the model draws no noise for a source at a place where the source is active.
pub open spec fn trace_can_fail<P, A>(
    simulation: Simulation<P, A>,
    sources: Seq<NoiseSource<A>>,
    frame_index: int,
    environment: Seq<(Seq<char>, Seq<char>)>,
    error: SimulationError,
) -> bool {
    match error {
        SimulationError::JsonValue(inner) => trace_length(
            simulation,
            sources,
            frame_index,
            environment,
        ) == Err::<int, JsonNumError>(inner),
        SimulationError::Model(_) => {
            &&& simulation.time_bins.spec_value(environment) is Ok
            &&& simulation.sample_rate.spec_value(environment) is Ok
            &&& exists|bin: Time, k: int|
                bin < simulation.time_bins.spec_value(environment)->Ok_0 && 0 <= k < sources.len()
                    && (#[trigger] sources[k].spec_wants_draw(bin, frame_index, environment))
                    == Ok::<bool, JsonNumError>(true)
        },
        _ => false,
    }
}

/// The noises of some sources, each with no sample yet.
fn begin_noises<A>(sources: &Vec<NoiseSource<A>>) -> (r: Vec<Noise<'_, A>>)
    ensures
        sources_of(r@) == sources@,
        recents_of(r@) == fresh(sources@.len()),
{
    let mut noises: Vec<Noise<'_, A>> = Vec::new();
    for k in 0..sources.len()
        invariant
            noises@.len() == k,
            forall|j: int| 0 <= j < k ==> (#[trigger] noises@[j]).source() == sources@[j],
            forall|j: int| 0 <= j < k ==> (#[trigger] noises@[j]).recent() == Seq::<Real>::empty(),
    {
        noises.push(Noise::new(&sources[k]));
    }
    proof {
        assert(sources_of(noises@) =~= sources@);
        assert(recents_of(noises@) =~= fresh(sources@.len()));
    }
    noises
}

impl Trace {
    /// Makes the trace of an event list in the frame `frame_number`.
    ///
    /// The sample at the place `i` stands at the time `i` times the time from
    /// one sample to the next. The model is asked what each pulse is worth
    /// at that time, and to draw for each source of noise that is active at
    /// the place `i`. Of what the model gives, the sample is made as
    /// [`make_sample`] says.
    pub fn new<P, A, M: PulseModel<P, A>>(
        simulator: &Simulation<P, A>,
        frame_number: FrameNumber,
        event_list: &EventList<'_, M::Event, A>,
        environment: &Environment,
        model: &mut M,
    ) -> (r: Result<Self, SimulationError>)
        ensures
            match r {
                Ok(trace) => {
                    &&& trace_length(
                        *simulator,
                        event_list.noises@,
                        frame_number as int,
                        environment@,
                    ) == Ok::<int, JsonNumError>(trace.intensities@.len() as int)
                    &&& is_trace_of(
                        simulator.voltage_transformation,
                        event_list.pulses@.len() as int,
                        event_list.noises@,
                        frame_number as int,
                        environment@,
                        trace.intensities@,
                    )
                },
                Err(error) => trace_can_fail(
                    *simulator,
                    event_list.noises@,
                    frame_number as int,
                    environment@,
                    error,
                ),
            },
    {
        let time_bins = match simulator.time_bins.value(environment) {
            Ok(time_bins) => time_bins,
            Err(error) => {
                return Err(SimulationError::JsonValue(error));
            },
        };
        let sample_rate = match simulator.sample_rate.value(environment) {
            Ok(sample_rate) => sample_rate,
            Err(error) => {
                return Err(SimulationError::JsonValue(error));
            },
        };
        let mut noises = begin_noises(event_list.noises);
        let mut intensities: Vec<Intensity> = Vec::new();
        let ghost line = simulator.voltage_transformation;
        let ghost sources = event_list.noises@;
        let ghost mut all_values: Seq<Seq<Real>> = Seq::empty();
        let ghost mut all_draws: Seq<Seq<Real>> = Seq::empty();
        for bin in 0..time_bins
            invariant
                intensities@.len() == bin,
                line == simulator.voltage_transformation,
                sources == event_list.noises@,
                simulator.time_bins.spec_value(environment@) == Ok::<int, JsonNumError>(
                    time_bins as int,
                ),
                simulator.sample_rate.spec_value(environment@) is Ok,
                sources_of(noises@) == sources,
                shaped(all_values, bin as int, event_list.pulses@.len() as int),
                shaped(all_draws, bin as int, sources.len() as int),
                recents_of(noises@) == recents_upto(
                    line,
                    sources,
                    all_values,
                    all_draws,
                    frame_number as int,
                    environment@,
                ),
                intensities@ == samples_upto(
                    line,
                    sources,
                    all_values,
                    all_draws,
                    frame_number as int,
                    environment@,
                ),
                bin > 0 ==> first_noise_error(sources, frame_number as int, environment@) is None,
        {
            let time = bin_time(sample_rate, bin);
            let mut values: Vec<Real> = Vec::new();
            for i in 0..event_list.pulses.len()
                invariant
                    values@.len() == i,
            {
                values.push(model.get_value_at(&event_list.pulses[i], time));
            }
            let mut draws: Vec<Real> = Vec::new();
            for k in 0..event_list.noises.len()
                invariant
                    draws@.len() == k,
                    bin < time_bins,
                    sources == event_list.noises@,
                    simulator.time_bins.spec_value(environment@) == Ok::<int, JsonNumError>(
                        time_bins as int,
                    ),
                    simulator.sample_rate.spec_value(environment@) is Ok,
                    forall|j: int|
                        0 <= j < k ==> noise_error(
                            #[trigger] sources[j],
                            frame_number as int,
                            environment@,
                        ) is None,
            {
                let source = &event_list.noises[k];
                match source.wants_draw(bin, frame_number as usize, environment) {
                    Err(error) => {
                        proof {
                            lemma_first_noise_error_at(
                                sources,
                                k as int,
                                frame_number as int,
                                environment@,
                            );
                        }
                        return Err(SimulationError::JsonValue(error));
                    },
                    Ok(true) => match model.draw(&source.attributes, bin, frame_number as usize) {
                        Ok(drawn) => {
                            draws.push(drawn);
                        },
                        Err(error) => {
                            proof {
                                assert(sources[k as int].spec_wants_draw(
                                    bin,
                                    frame_number as int,
                                    environment@,
                                ) == Ok::<bool, JsonNumError>(true));
                            }
                            return Err(SimulationError::Model(error));
                        },
                    },
                    Ok(false) => {
                        draws.push(0);
                    },
                }
            }
            proof {
                lemma_no_noise_error(sources, frame_number as int, environment@);
                lemma_noises_fail_by_their_sources(
                    sources,
                    recents_of(noises@),
                    sources.len(),
                    voltage_of(line, values@),
                    bin,
                    frame_number as int,
                    environment@,
                    draws@,
                );
                assert(sources.take(sources.len() as int) =~= sources);
            }
            let ghost held = recents_of(noises@);
            match make_sample(
                &mut noises,
                &simulator.voltage_transformation,
                &values,
                &draws,
                bin,
                frame_number as usize,
                environment,
            ) {
                Ok(sample) => {
                    intensities.push(sample);
                    proof {
                        let longer_values = all_values.push(values@);
                        let longer_draws = all_draws.push(draws@);
                        assert(longer_values.drop_last() =~= all_values);
                        assert(longer_draws.drop_last() =~= all_draws);
                        assert(longer_values.last() == values@);
                        assert(longer_draws.last() == draws@);
                        assert(longer_values.len() - 1 == bin);
                        all_values = longer_values;
                        all_draws = longer_draws;
                    }
                },
                Err(error) => {
                    assert(false);
                    return Err(SimulationError::JsonValue(error));
                },
            }
        }
        Ok(Trace { intensities })
    }
}

impl<P, A> Simulation<P, A> {
    /// Makes the trace of each of `event_lists` in the frame `frame_number`.
    ///
    /// There is one trace for each event list, in their order: the trace at
    /// a place is made of the event list at that place, and has as many
    /// samples as the simulation says. The first event list of which there is
    /// no trace gives the error.
    pub fn generate_traces<M: PulseModel<P, A>>(
        &self,
        event_lists: &[EventList<'_, M::Event, A>],
        frame_number: FrameNumber,
        environment: &Environment,
        model: &mut M,
    ) -> (r: Result<Vec<Trace>, SimulationError>)
        ensures
            match r {
                Ok(traces) => {
                    &&& traces@.len() == event_lists@.len()
                    &&& forall|i: int|
                        0 <= i < traces@.len() ==> self.time_bins.spec_value(environment@) == Ok::<
                            int,
                            JsonNumError,
                        >((#[trigger] traces@[i]).intensities@.len() as int)
                    &&& forall|i: int|
                        0 <= i < traces@.len() ==> is_trace_of(
                            self.voltage_transformation,
                            event_lists@[i].pulses@.len() as int,
                            event_lists@[i].noises@,
                            frame_number as int,
                            environment@,
                            (#[trigger] traces@[i]).intensities@,
                        )
                    &&& forall|i: int|
                        0 <= i < event_lists@.len() ==> trace_length(
                            *self,
                            (#[trigger] event_lists@[i]).noises@,
                            frame_number as int,
                            environment@,
                        ) is Ok
                },
                Err(error) => exists|i: int|
                    {
                        &&& 0 <= i < event_lists@.len()
                        &&& trace_can_fail(
                            *self,
                            (#[trigger] event_lists@[i]).noises@,
                            frame_number as int,
                            environment@,
                            error,
                        )
                        &&& forall|j: int|
                            0 <= j < i ==> trace_length(
                                *self,
                                (#[trigger] event_lists@[j]).noises@,
                                frame_number as int,
                                environment@,
                            ) is Ok
                    },
            },
    {
        let mut traces: Vec<Trace> = Vec::new();
        for i in 0..event_lists.len()
            invariant
                traces@.len() == i,
                forall|j: int|
                    0 <= j < i ==> self.time_bins.spec_value(environment@) == Ok::<
                        int,
                        JsonNumError,
                    >((#[trigger] traces@[j]).intensities@.len() as int),
                forall|j: int|
                    0 <= j < i ==> is_trace_of(
                        self.voltage_transformation,
                        event_lists@[j].pulses@.len() as int,
                        event_lists@[j].noises@,
                        frame_number as int,
                        environment@,
                        (#[trigger] traces@[j]).intensities@,
                    ),
                forall|j: int|
                    0 <= j < i ==> trace_length(
                        *self,
                        (#[trigger] event_lists@[j]).noises@,
                        frame_number as int,
                        environment@,
                    ) is Ok,
        {
            match Trace::new(self, frame_number, &event_lists[i], environment, model) {
                Ok(trace) => {
                    traces.push(trace);
                },
                Err(error) => {
                    return Err(error);
                },
            }
        }
        Ok(traces)
    }
}

} // verus!
