//! The recipe for the events of a frame, and the events made by it.
use super::model::PulseModel;
use super::noise::NoiseSource;
use super::random::{
    index_weights, sample_index, usable_weights, weighted_index, weights_fault,
    IntRandomDistribution,
};
use super::utils::{Environment, JsonNumError};
use super::{FrameNumber, Simulation, SimulationError};
use crate::fixed::Real;
use rand::rngs::StdRng;
use vstd::prelude::*;

verus! {

/// A pulse template of the simulation, and how likely it is to be chosen.
#[derive(Clone, Copy, Debug)]
pub struct EventPulseTemplate {
    /// The weight of the template among those of its list.
    pub weight: Real,
    /// The place of the template among the pulse templates of the simulation.
    pub pulse_index: usize,
}

/// The recipe for the events of a frame.
#[derive(Clone, Debug)]
pub struct EventListTemplate<A> {
    /// The pulse templates to choose from.
    pub pulses: Vec<EventPulseTemplate>,
    /// The sources of noise.
    pub noises: Vec<NoiseSource<A>>,
    /// How many pulses there are.
    pub num_pulses: IntRandomDistribution<usize>,
}

/// The events of a frame: the pulses, and the sources of noise.
#[derive(Debug)]
pub struct EventList<'a, E, A> {
    /// The pulses.
    pub pulses: Vec<E>,
    /// The sources of noise.
    pub noises: &'a Vec<NoiseSource<A>>,
}

/// The weights of some pulse templates.
pub open spec fn weights_of(pulses: Seq<EventPulseTemplate>) -> Seq<Real> {
    Seq::new(pulses.len(), |i: int| pulses[i].weight)
}

/// Whether `template` can be chosen for an event list made by `source`: it
/// is the template of one of the source's pulses, and that pulse has a weight
/// above zero.
pub open spec fn can_choose<P, A>(
    simulation: Simulation<P, A>,
    source: EventListTemplate<A>,
    template: P,
) -> bool {
    exists|k: usize|
        k < source.pulses@.len() && (#[trigger] source.pulses@[k as int]).weight > 0
            && simulation.spec_template(source, k) == Ok::<P, SimulationError>(template)
}

/// Whether `source` can fail with `error` in the frame `frame_index`.
///
/// The number of pulses is drawn first, and its error comes first. Weights
/// of which no distribution can be made come next. After them comes a pulse
/// with a weight above zero whose template the simulation does not have, or
/// a template of which the model makes no pulse.
pub open spec fn can_fail<P, A>(
    simulation: Simulation<P, A>,
    source: EventListTemplate<A>,
    error: SimulationError,
    frame_index: int,
    environment: Seq<(Seq<char>, Seq<char>)>,
) -> bool {
    match error {
        SimulationError::JsonValue(inner) => source.num_pulses.spec_range(
            frame_index,
            environment,
        ) == Err::<(int, int), JsonNumError>(inner),
        SimulationError::Weights(inner) => {
            &&& source.num_pulses.spec_range(frame_index, environment) is Ok
            &&& weights_fault(weights_of(source.pulses@)) == Some(inner)
        },
        SimulationError::EventPulseTemplateIndexOutOfRange(index, len) => {
            &&& source.num_pulses.spec_range(frame_index, environment) is Ok
            &&& usable_weights(weights_of(source.pulses@))
            &&& len == source.pulses.len()
            &&& index < source.pulses@.len()
            &&& source.pulses@[index as int].weight > 0
            &&& source.pulses@[index as int].pulse_index >= simulation.pulses@.len()
        },
        SimulationError::Model(_) => {
            &&& source.num_pulses.spec_range(frame_index, environment) is Ok
            &&& usable_weights(weights_of(source.pulses@))
        },
        SimulationError::EventListIndexOutOfRange(..) => false,
    }
}

/// Whether `list` can be the event list that `source` makes in the frame
/// `frame_index`: the number of its pulses lies in the range of the source's
/// distribution, and its sources of noise are those of `source`.
pub open spec fn can_make<E, A>(
    source: EventListTemplate<A>,
    list: EventList<E, A>,
    frame_index: int,
    environment: Seq<(Seq<char>, Seq<char>)>,
) -> bool {
    &&& source.num_pulses.spec_range(frame_index, environment) matches Ok(range) && range.0
        <= list.pulses@.len() < range.1
    &&& usable_weights(weights_of(source.pulses@))
    &&& *list.noises == source.noises
}

/// Whether `source` surely makes an event list in the frame `frame_index`:
/// a distribution can be made of its weights, and its event lists have no
/// pulse, so that nothing is asked of chance or of the model.
pub open spec fn surely_makes<A>(
    source: EventListTemplate<A>,
    frame_index: int,
    environment: Seq<(Seq<char>, Seq<char>)>,
) -> bool {
    &&& source.num_pulses.spec_range(frame_index, environment) is Ok
    &&& source.num_pulses.spec_range(frame_index, environment)->Ok_0.1 <= 1
    &&& usable_weights(weights_of(source.pulses@))
}

/// The weights of the pulse templates of an event list.
fn collect_weights(pulses: &Vec<EventPulseTemplate>) -> (r: Vec<Real>)
    ensures
        r@ == weights_of(pulses@),
{
    let mut weights: Vec<Real> = Vec::new();
    for i in 0..pulses.len()
        invariant
            weights@ == weights_of(pulses@.take(i as int)),
    {
        weights.push(pulses[i].weight);
        proof {
            assert(weights@ =~= weights_of(pulses@.take(i + 1)));
        }
    }
    proof {
        assert(pulses@.take(pulses@.len() as int) =~= pulses@);
    }
    weights
}

impl<P, A> Simulation<P, A> {
    /// Draws the number of pulses for an event list in the frame
    /// `frame_number`, and then chooses a template for each pulse by the
    /// weights of the templates of `source`.
    ///
    /// The number of templates lies in the range of the source's
    /// distribution, and each template is one that can be chosen.
    pub fn choose_templates<'a>(
        &'a self,
        frame_number: FrameNumber,
        source: &EventListTemplate<A>,
        environment: &Environment,
        rng: &mut StdRng,
    ) -> (r: Result<Vec<&'a P>, SimulationError>)
        ensures
            match r {
                Ok(templates) => {
                    &&& source.num_pulses.spec_range(frame_number as int, environment@) matches Ok(
                        range,
                    ) && range.0 <= templates@.len() < range.1
                    &&& usable_weights(weights_of(source.pulses@))
                    &&& forall|i: int|
                        0 <= i < templates@.len() ==> can_choose(
                            *self,
                            *source,
                            *#[trigger] templates@[i],
                        )
                },
                Err(error) => !(error is Model) && can_fail(
                    *self,
                    *source,
                    error,
                    frame_number as int,
                    environment@,
                ),
            },
            surely_makes(*source, frame_number as int, environment@) ==> r is Ok,
    {
        let num_pulses = match source.num_pulses.sample(frame_number as usize, environment, rng) {
            Ok(num_pulses) => num_pulses,
            Err(error) => {
                return Err(SimulationError::JsonValue(error));
            },
        };
        let weights = collect_weights(&source.pulses);
        let distribution = match weighted_index(&weights) {
            Ok(distribution) => distribution,
            Err(error) => {
                return Err(SimulationError::Weights(error));
            },
        };
        let mut templates: Vec<&'a P> = Vec::new();
        for i in 0..num_pulses
            invariant
                templates@.len() == i,
                num_pulses > 0 ==> !surely_makes(*source, frame_number as int, environment@),
                index_weights(distribution) == weights_of(source.pulses@),
                usable_weights(weights_of(source.pulses@)),
                source.num_pulses.spec_range(frame_number as int, environment@) is Ok,
                forall|j: int|
                    0 <= j < i ==> can_choose(*self, *source, *#[trigger] templates@[j]),
        {
            let index = sample_index(&distribution, rng);
            proof {
                assert(weights_of(source.pulses@)[index as int]
                    == source.pulses@[index as int].weight);
            }
            match self.get_pulse_template(source, index) {
                Ok(template) => {
                    templates.push(template);
                },
                Err(error) => {
                    return Err(error);
                },
            }
        }
        Ok(templates)
    }
}

impl<'a, E, A> EventList<'a, E, A> {
    /// Makes the event list of a frame: draws the number of pulses, chooses a
    /// template for each pulse by the weights of the templates, and lets the
    /// model make a pulse of each template.
    pub fn new<P, M: PulseModel<P, A, Event = E>>(
        simulator: &Simulation<P, A>,
        frame_number: FrameNumber,
        source: &'a EventListTemplate<A>,
        environment: &Environment,
        rng: &mut StdRng,
        model: &mut M,
    ) -> (r: Result<Self, SimulationError>)
        ensures
            match r {
                Ok(list) => can_make(*source, list, frame_number as int, environment@),
                Err(error) => can_fail(
                    *simulator,
                    *source,
                    error,
                    frame_number as int,
                    environment@,
                ),
            },
            surely_makes(*source, frame_number as int, environment@) ==> r is Ok,
    {
        let templates = match simulator.choose_templates(frame_number, source, environment, rng) {
            Ok(templates) => templates,
            Err(error) => {
                return Err(error);
            },
        };
        let mut pulses: Vec<E> = Vec::new();
        for i in 0..templates.len()
            invariant
                pulses@.len() == i,
                usable_weights(weights_of(source.pulses@)),
                source.num_pulses.spec_range(frame_number as int, environment@) is Ok,
                templates@.len() > 0 ==> !surely_makes(
                    *source,
                    frame_number as int,
                    environment@,
                ),
        {
            match model.sample(templates[i], frame_number as usize) {
                Ok(pulse) => {
                    pulses.push(pulse);
                },
                Err(error) => {
                    return Err(SimulationError::Model(error));
                },
            }
        }
        Ok(EventList { pulses, noises: &source.noises })
    }
}

} // verus!
