//! The parts of the trace simulation that work on whole numbers: the
//! expressions of a configuration, the layout of digitisers and channels, the
//! choice of pulse templates, and the smoothing of noise.
//!
//! The shapes of the pulses and the kinds of the noise are of no concern
//! here: a simulation holds them as values of types that it does not look into.
pub mod digitiser_config;
pub mod event_list;
pub mod interval;
pub mod model;
pub mod noise;
pub mod random;
pub mod trace;
pub mod utils;

use crate::fixed::{Real, Time};
use digitiser_config::DigitiserConfig;
use event_list::{can_fail, can_make, surely_makes, EventList, EventListTemplate};
use model::PulseModel;
use rand::rngs::StdRng;
use random::{index_weights, sample_index, IndexDistribution, WeightError};
use utils::{Environment, JsonNumError, NumConstant, Transformation};
use vstd::prelude::*;

verus! {

/// The number of a frame.
pub type FrameNumber = u32;

/// A simulation, as its configuration describes it.
#[derive(Debug)]
pub struct Simulation<P, A> {
    /// The line that takes the sum of the pulses to a voltage.
    pub voltage_transformation: Transformation<Real>,
    /// The length of each trace, in samples.
    pub time_bins: NumConstant<Time>,
    /// The number of samples per second.
    pub sample_rate: NumConstant<u64>,
    /// The layout of digitisers and channels.
    pub digitiser_config: DigitiserConfig,
    /// The recipes for the events of a frame.
    pub event_lists: Vec<EventListTemplate<A>>,
    /// The templates of the pulses.
    pub pulses: Vec<P>,
}

/// Why a simulation cannot go on.
#[derive(Clone, Copy, Debug, PartialEq, Eq)]
pub enum SimulationError {
    /// There is no event list at the index: the index, and the number of event lists.
    EventListIndexOutOfRange(usize, usize),
    /// An event list asks for a pulse template that is not there: the place
    /// of the pulse in the event list, and the number of pulses in the event list.
    EventPulseTemplateIndexOutOfRange(usize, usize),
    /// A number of the configuration has no value.
    JsonValue(JsonNumError),
    /// No distribution can be made of the weights of an event list.
    Weights(WeightError),
    /// The model makes no pulse of a template, or draws no noise.
    Model(JsonNumError),
}

impl From<JsonNumError> for SimulationError {
    fn from(error: JsonNumError) -> (r: Self) {
        SimulationError::JsonValue(error)
    }
}

impl vstd::std_specs::convert::FromSpecImpl<JsonNumError> for SimulationError {
    open spec fn obeys_from_spec() -> bool {
        true
    }

    open spec fn from_spec(error: JsonNumError) -> Self {
        SimulationError::JsonValue(error)
    }
}

/// The place of the first pulse among `pulses` whose template is not among
/// `count` templates.
pub open spec fn first_missing(pulses: Seq<event_list::EventPulseTemplate>, count: int) -> Option<
    int,
>
    decreases pulses.len(),
{
    if pulses.len() == 0 {
        None
    } else {
        match first_missing(pulses.drop_last(), count) {
            Some(place) => Some(place),
            None => if pulses.last().pulse_index >= count {
                Some(pulses.len() - 1)
            } else {
                None
            },
        }
    }
}

impl<P, A> Simulation<P, A> {
    /// The template of the pulse at the place `index` of the event list
    /// `source`, or why there is none: the event list has no such place, or
    /// the simulation has no template at the place that the pulse names.
    pub open spec fn spec_template(self, source: EventListTemplate<A>, index: usize) -> Result<
        P,
        SimulationError,
    > {
        if index < source.pulses@.len() && source.pulses@[index as int].pulse_index
            < self.pulses@.len() {
            Ok(self.pulses@[source.pulses@[index as int].pulse_index as int])
        } else {
            Err(SimulationError::EventPulseTemplateIndexOutOfRange(index, source.pulses.len()))
        }
    }

    /// Whether every pulse of every event list names a template that the simulation has.
    pub open spec fn is_valid(self) -> bool {
        forall|i: int|
            0 <= i < self.event_lists@.len() ==> first_missing(
                (#[trigger] self.event_lists@[i]).pulses@,
                self.pulses@.len() as int,
            ) is None
    }

    /// The template of the pulse at the place `index` of the event list `source`.
    pub fn get_pulse_template(&self, source: &EventListTemplate<A>, index: usize) -> (r: Result<
        &P,
        SimulationError,
    >)
        ensures
            match r {
                Ok(template) => self.spec_template(*source, index) == Ok::<P, SimulationError>(
                    *template,
                ),
                Err(error) => self.spec_template(*source, index) == Err::<P, SimulationError>(
                    error,
                ),
            },
    {
        if index >= source.pulses.len() {
            return Err(
                SimulationError::EventPulseTemplateIndexOutOfRange(index, source.pulses.len()),
            );
        }
        let pulse_index = source.pulses[index].pulse_index;
        if pulse_index >= self.pulses.len() {
            return Err(
                SimulationError::EventPulseTemplateIndexOutOfRange(index, source.pulses.len()),
            );
        }
        Ok(&self.pulses[pulse_index])
    }

    /// Chooses a pulse template of the event list `source` by `distr`.
    ///
    /// The place that is drawn is one of the weights that `distr` was made
    /// of, and its weight is not zero; the result is what
    /// [`Self::get_pulse_template`] gives for that place.
    pub fn get_random_pulse_template(
        &self,
        source: &EventListTemplate<A>,
        distr: &IndexDistribution,
        rng: &mut StdRng,
    ) -> (r: Result<&P, SimulationError>)
        ensures
            exists|index: usize|
                index < index_weights(*distr).len() && (#[trigger] index_weights(
                    *distr,
                )[index as int]) > 0 && match r {
                    Ok(template) => self.spec_template(*source, index) == Ok::<
                        P,
                        SimulationError,
                    >(*template),
                    Err(error) => self.spec_template(*source, index) == Err::<P, SimulationError>(
                        error,
                    ),
                },
    {
        let index = sample_index(distr, rng);
        let r = self.get_pulse_template(source, index);
        proof {
            assert(index_weights(*distr)[index as int] > 0);
        }
        r
    }

    /// Tests whether every pulse of every event list names a template that
    /// the simulation has. The error names the first pulse that does not, by
    /// its place in its event list and the number of pulses there.
    pub fn validate(&self) -> (r: Result<(), SimulationError>)
        ensures
            r is Ok <==> self.is_valid(),
            r matches Err(error) ==> error is EventPulseTemplateIndexOutOfRange && exists|i: int|
                0 <= i < self.event_lists@.len() && first_missing(
                    (#[trigger] self.event_lists@[i]).pulses@,
                    self.pulses@.len() as int,
                ) == Some(error->EventPulseTemplateIndexOutOfRange_0 as int)
                    && error->EventPulseTemplateIndexOutOfRange_1
                    == self.event_lists@[i].pulses.len(),
    {
        for i in 0..self.event_lists.len()
            invariant
                forall|k: int|
                    0 <= k < i ==> first_missing(
                        (#[trigger] self.event_lists@[k]).pulses@,
                        self.pulses@.len() as int,
                    ) is None,
        {
            let pulses = &self.event_lists[i].pulses;
            for j in 0..pulses.len()
                invariant
                    i < self.event_lists@.len(),
                    pulses == &self.event_lists@[i as int].pulses,
                    first_missing(pulses@.take(j as int), self.pulses@.len() as int) is None,
            {
                proof {
                    assert(pulses@.take(j + 1).drop_last() =~= pulses@.take(j as int));
                }
                if pulses[j].pulse_index >= self.pulses.len() {
                    proof {
                        lemma_first_missing_stays(pulses@, j + 1, self.pulses@.len() as int);
                    }
                    return Err(
                        SimulationError::EventPulseTemplateIndexOutOfRange(j, pulses.len()),
                    );
                }
            }
            proof {
                assert(pulses@.take(pulses@.len() as int) =~= pulses@);
            }
        }
        Ok(())
    }

    /// Makes `repeat` event lists for the frame `frame_number` by the recipe
    /// at the place `index`.
    ///
    /// There must be a recipe at that place. Each event list is then one that
    /// the recipe can make, and an error is one that the recipe can fail with.
    /// No event list is always made; so are event lists without pulses, where
    /// a distribution can be made of the weights.
    pub fn generate_event_lists<'a, M: PulseModel<P, A>>(
        &'a self,
        index: usize,
        frame_number: FrameNumber,
        repeat: usize,
        environment: &Environment,
        rng: &mut StdRng,
        model: &mut M,
    ) -> (r: Result<Vec<EventList<'a, M::Event, A>>, SimulationError>)
        ensures
            index >= self.event_lists@.len() ==> r == Err::<
                Vec<EventList<'a, M::Event, A>>,
                SimulationError,
            >(SimulationError::EventListIndexOutOfRange(index, self.event_lists.len())),
            index < self.event_lists@.len() ==> match r {
                Ok(lists) => lists@.len() == repeat && forall|i: int|
                    0 <= i < repeat ==> can_make(
                        self.event_lists@[index as int],
                        #[trigger] lists@[i],
                        frame_number as int,
                        environment@,
                    ),
                Err(error) => can_fail(
                    *self,
                    self.event_lists@[index as int],
                    error,
                    frame_number as int,
                    environment@,
                ),
            },
            index < self.event_lists@.len() && (repeat == 0 || surely_makes(
                self.event_lists@[index as int],
                frame_number as int,
                environment@,
            )) ==> r is Ok,
    {
        if index >= self.event_lists.len() {
            return Err(SimulationError::EventListIndexOutOfRange(index, self.event_lists.len()));
        }
        let source = &self.event_lists[index];
        let mut lists: Vec<EventList<'a, M::Event, A>> = Vec::new();
        for done in 0..repeat
            invariant
                index < self.event_lists@.len(),
                source == &self.event_lists@[index as int],
                lists@.len() == done,
                forall|i: int|
                    0 <= i < done ==> can_make(
                        *source,
                        #[trigger] lists@[i],
                        frame_number as int,
                        environment@,
                    ),
        {
            match EventList::new(self, frame_number, source, environment, rng, model) {
                Ok(list) => {
                    lists.push(list);
                },
                Err(error) => {
                    return Err(error);
                },
            }
        }
        Ok(lists)
    }
}

/// The first pulse without a template stays the first when pulses are appended.
pub proof fn lemma_first_missing_stays(
    pulses: Seq<event_list::EventPulseTemplate>,
    k: int,
    count: int,
)
    requires
        0 <= k <= pulses.len(),
        first_missing(pulses.take(k), count) is Some,
    ensures
        first_missing(pulses, count) == first_missing(pulses.take(k), count),
    decreases pulses.len() - k,
{
    if k < pulses.len() {
        assert(pulses.take(k + 1).drop_last() =~= pulses.take(k));
        lemma_first_missing_stays(pulses, k + 1, count);
    } else {
        assert(pulses.take(k) =~= pulses);
    }
}

} // verus!
