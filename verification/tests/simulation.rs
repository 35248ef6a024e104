use muon_trace::fixed::{Intensity, Real, Time, SCALE};
use muon_trace::simulation::digitiser_config::{
    Channel, Digitiser, DigitiserConfig, SimulationEngineDigitiser,
};
use muon_trace::simulation::event_list::{EventList, EventListTemplate, EventPulseTemplate};
use muon_trace::simulation::model::PulseModel;
use muon_trace::simulation::interval::Interval;
use muon_trace::simulation::noise::{Noise, NoiseSource};
use muon_trace::simulation::random::{IndexDistribution, IntRandomDistribution, WeightError};
use muon_trace::simulation::trace::{
    apply_noises, bin_time, make_sample, sample_time, sum_values, transform_scalar, Trace,
};
use muon_trace::simulation::utils::{
    Environment, JsonNumError, NumConstant, NumExpression, Transformation,
};
use muon_trace::simulation::{Simulation, SimulationError};
use rand::rngs::StdRng;
use rand::SeedableRng;
use serde_json::Value;

fn parts(x: f64) -> Real {
    (x * SCALE as f64).round() as Real
}

fn variables(pairs: &[(&str, &str)]) -> Environment {
    Environment {
        variables: pairs
            .iter()
            .map(|(name, value)| (name.to_string(), value.to_string()))
            .collect(),
    }
}

fn views(digitisers: &[SimulationEngineDigitiser]) -> Vec<(u8, Vec<usize>)> {
    digitisers
        .iter()
        .map(|digitiser| (digitiser.id, digitiser.channel_indices.clone()))
        .collect()
}

#[test]
fn automatic_digitisers() {
    let env = Environment::new();
    let config = DigitiserConfig::AutoDigitisers {
        num_digitisers: NumConstant::Const(32),
        num_channels_per_digitiser: NumConstant::Const(8),
    };
    let channels = config.generate_channels(&env).unwrap();
    let digitisers = config.generate_digitisers(&env).unwrap();
    assert_eq!(channels.len(), 256);
    assert_eq!(channels, (0..256).collect::<Vec<Channel>>());
    assert_eq!(digitisers.len(), 32);
    for (d, digitiser) in digitisers.iter().enumerate() {
        assert_eq!(digitiser.id as usize, d);
        assert_eq!(
            digitiser.channel_indices,
            (d * 8..(d + 1) * 8).collect::<Vec<usize>>()
        );
    }
    let all: Vec<usize> = digitisers
        .iter()
        .flat_map(|digitiser| digitiser.channel_indices.iter().copied())
        .collect();
    assert_eq!(all, (0..channels.len()).collect::<Vec<usize>>());
}

#[test]
fn automatic_digitisers_from_the_environment() {
    let env = variables(&[("DIGITISERS", "2"), ("CHANNELS", "3")]);
    let config = DigitiserConfig::AutoDigitisers {
        num_digitisers: NumConstant::FromEnvVar("DIGITISERS".to_string()),
        num_channels_per_digitiser: NumConstant::FromEnvVar("CHANNELS".to_string()),
    };
    assert_eq!(config.generate_channels(&env), Ok(vec![0, 1, 2, 3, 4, 5]));
    assert_eq!(
        views(&config.generate_digitisers(&env).unwrap()),
        vec![(0, vec![0, 1, 2]), (1, vec![3, 4, 5])]
    );
    let env = variables(&[("DIGITISERS", "2")]);
    assert_eq!(config.generate_channels(&env), Err(JsonNumError::EnvVar));
    assert_eq!(
        config.generate_digitisers(&env).err(),
        Some(JsonNumError::EnvVar)
    );
    // Without digitisers the number of channels of each is not looked at.
    let env = variables(&[("DIGITISERS", "0")]);
    assert_eq!(config.generate_channels(&env), Err(JsonNumError::EnvVar));
    assert_eq!(config.generate_digitisers(&env), Ok(vec![]));
}

#[test]
fn automatic_digitisers_that_are_too_many() {
    let env = Environment::new();
    let config = DigitiserConfig::AutoDigitisers {
        num_digitisers: NumConstant::Const(257),
        num_channels_per_digitiser: NumConstant::Const(1),
    };
    assert_eq!(config.generate_channels(&env).map(|c| c.len()), Ok(257));
    // A digitiser number has eight bits: the numbers begin anew after 255.
    let digitisers = config.generate_digitisers(&env).unwrap();
    assert_eq!(digitisers.len(), 257);
    assert_eq!(digitisers[255].id, 255);
    assert_eq!(digitisers[255].channel_indices, vec![255]);
    assert_eq!(digitisers[256].id, 0);
    assert_eq!(digitisers[256].channel_indices, vec![256]);
    let config = DigitiserConfig::AutoDigitisers {
        num_digitisers: NumConstant::Const(600),
        num_channels_per_digitiser: NumConstant::Const(3),
    };
    let channels = config.generate_channels(&env).unwrap();
    let digitisers = config.generate_digitisers(&env).unwrap();
    assert_eq!(digitisers.len(), 600);
    assert_eq!(digitisers[599].id, (599 % 256) as u8);
    let all: Vec<usize> = digitisers
        .iter()
        .flat_map(|digitiser| digitiser.channel_indices.iter().copied())
        .collect();
    assert_eq!(all, (0..channels.len()).collect::<Vec<usize>>());
    let config = DigitiserConfig::AutoDigitisers {
        num_digitisers: NumConstant::Const(2),
        num_channels_per_digitiser: NumConstant::Const(usize::MAX),
    };
    assert_eq!(config.generate_channels(&env), Err(JsonNumError::Overflow));
    assert_eq!(
        config.generate_digitisers(&env).err(),
        Some(JsonNumError::Overflow)
    );
}

#[test]
fn channel_numbers_have_32_bits() {
    let env = Environment::new();
    let config = DigitiserConfig::AutoAggregatedFrame {
        num_channels: NumConstant::Const(u32::MAX as usize + 3),
    };
    assert_eq!(config.generate_channels(&env), Ok(vec![0, 1]));
    let config = DigitiserConfig::AutoDigitisers {
        num_digitisers: NumConstant::Const(2),
        num_channels_per_digitiser: NumConstant::Const((1 << 31) + 2),
    };
    assert_eq!(config.generate_channels(&env), Ok(vec![0, 1, 2, 3]));
}

#[test]
fn aggregated_frames() {
    let env = Environment::new();
    let config = DigitiserConfig::AutoAggregatedFrame {
        num_channels: NumConstant::Const(4),
    };
    assert_eq!(config.generate_channels(&env), Ok(vec![0, 1, 2, 3]));
    assert_eq!(config.generate_digitisers(&env), Ok(vec![]));
    let config = DigitiserConfig::ManualAggregatedFrame {
        channels: vec![9, 2, 5],
    };
    assert_eq!(config.generate_channels(&env), Ok(vec![9, 2, 5]));
    assert_eq!(config.generate_digitisers(&env), Ok(vec![]));
    let config = DigitiserConfig::AutoAggregatedFrame {
        num_channels: NumConstant::FromEnvVar("CHANNELS".to_string()),
    };
    assert_eq!(config.generate_channels(&env), Err(JsonNumError::EnvVar));
    assert_eq!(config.generate_digitisers(&env), Ok(vec![]));
}

#[test]
fn manual_digitisers() {
    let env = Environment::new();
    let config = DigitiserConfig::ManualDigitisers(vec![
        Digitiser {
            id: 4,
            channels: Interval { min: 10, max: 12 },
        },
        Digitiser {
            id: 9,
            channels: Interval { min: 3, max: 3 },
        },
        Digitiser {
            id: 2,
            channels: Interval { min: 7, max: 6 },
        },
        Digitiser {
            id: 1,
            channels: Interval { min: 0, max: 1 },
        },
    ]);
    let channels = config.generate_channels(&env).unwrap();
    assert_eq!(channels, vec![10, 11, 12, 3, 0, 1]);
    let digitisers = config.generate_digitisers(&env).unwrap();
    assert_eq!(
        views(&digitisers),
        vec![
            (4, vec![0, 1, 2]),
            (9, vec![3]),
            (2, vec![]),
            (1, vec![4, 5])
        ]
    );
    assert_eq!(
        SimulationEngineDigitiser::new(4, vec![0, 1, 2]),
        digitisers[0]
    );
}

type Template = &'static str;
type Kind = &'static str;

fn noise_source(min: Time, max: Time, window: usize) -> NoiseSource<Kind> {
    NoiseSource {
        bounds: Interval {
            min: NumExpression::Const(min),
            max: NumExpression::Const(max),
        },
        attributes: "gaussian",
        smoothing_window_length: NumExpression::Const(window),
    }
}

fn simulation() -> Simulation<Template, Kind> {
    Simulation {
        voltage_transformation: Transformation {
            scale: parts(2.0),
            translate: parts(1.0),
        },
        time_bins: NumConstant::Const(4),
        sample_rate: NumConstant::Const(1_000_000_000),
        digitiser_config: DigitiserConfig::AutoAggregatedFrame {
            num_channels: NumConstant::Const(2),
        },
        event_lists: vec![
            EventListTemplate {
                pulses: vec![
                    EventPulseTemplate {
                        weight: parts(0.0),
                        pulse_index: 0,
                    },
                    EventPulseTemplate {
                        weight: parts(1.0),
                        pulse_index: 2,
                    },
                    EventPulseTemplate {
                        weight: parts(3.0),
                        pulse_index: 1,
                    },
                ],
                noises: vec![noise_source(0, 2, 2)],
                num_pulses: IntRandomDistribution::ConstantInt {
                    value: NumExpression::Const(50),
                },
            },
            EventListTemplate {
                pulses: vec![
                    EventPulseTemplate {
                        weight: parts(1.0),
                        pulse_index: 0,
                    },
                    EventPulseTemplate {
                        weight: parts(0.0),
                        pulse_index: 7,
                    },
                ],
                noises: vec![],
                num_pulses: IntRandomDistribution::UniformInt {
                    min: NumExpression::Const(2),
                    max: NumExpression::Const(5),
                },
            },
        ],
        pulses: vec!["back-to-back-exp", "flat", "triangular"],
    }
}

#[test]
fn pulse_template_by_its_place() {
    let simulation = simulation();
    let source = &simulation.event_lists[0];
    assert_eq!(simulation.get_pulse_template(source, 0), Ok(&"back-to-back-exp"));
    assert_eq!(simulation.get_pulse_template(source, 1), Ok(&"triangular"));
    assert_eq!(simulation.get_pulse_template(source, 2), Ok(&"flat"));
    assert_eq!(
        simulation.get_pulse_template(source, 3),
        Err(SimulationError::EventPulseTemplateIndexOutOfRange(3, 3))
    );
    let source = &simulation.event_lists[1];
    assert_eq!(
        simulation.get_pulse_template(source, 1),
        Err(SimulationError::EventPulseTemplateIndexOutOfRange(1, 2))
    );
}

#[test]
fn pulse_template_by_chance() {
    let simulation = simulation();
    let source = &simulation.event_lists[0];
    let weights: Vec<Real> = source.pulses.iter().map(|pulse| pulse.weight).collect();
    let distribution = IndexDistribution::new(&weights).unwrap();
    let mut rng = StdRng::seed_from_u64(11);
    let mut flat = 0;
    let mut triangular = 0;
    for _ in 0..400 {
        match simulation.get_random_pulse_template(source, &distribution, &mut rng) {
            Ok(&"flat") => flat += 1,
            Ok(&"triangular") => triangular += 1,
            other => panic!("a template without weight was chosen: {:?}", other),
        }
    }
    assert_eq!(flat + triangular, 400);
    assert!(flat > triangular);
    assert!(triangular > 0);

    // Of a single weight above zero the place is certain, wherever it stands.
    let distribution = IndexDistribution::new(&vec![0, 0, 5]).unwrap();
    for _ in 0..20 {
        assert_eq!(
            simulation.get_random_pulse_template(source, &distribution, &mut rng),
            Ok(&"flat")
        );
    }
}

#[test]
fn simulation_names_only_templates_it_has() {
    let mut simulation = simulation();
    assert_eq!(
        simulation.validate(),
        Err(SimulationError::EventPulseTemplateIndexOutOfRange(1, 2))
    );
    simulation.event_lists[1].pulses[1].pulse_index = 2;
    assert_eq!(simulation.validate(), Ok(()));
    simulation.event_lists[0].pulses[0].pulse_index = 3;
    simulation.event_lists[0].pulses[2].pulse_index = 3;
    assert_eq!(
        simulation.validate(),
        Err(SimulationError::EventPulseTemplateIndexOutOfRange(0, 3))
    );
    assert_eq!(
        SimulationError::from(JsonNumError::EnvVar),
        SimulationError::JsonValue(JsonNumError::EnvVar)
    );
}

/// A model whose pulses are ramps: a pulse is the slope of its ramp, which is
/// the length of the name of its template.
struct Ramps {
    draw: Real,
    sampled: Vec<Template>,
    draws: usize,
    fails_to_sample: Option<Template>,
    fails_to_draw: bool,
}

fn ramps(draw: Real) -> Ramps {
    Ramps {
        draw,
        sampled: Vec::new(),
        draws: 0,
        fails_to_sample: None,
        fails_to_draw: false,
    }
}

impl PulseModel<Template, Kind> for Ramps {
    type Event = i64;

    fn sample(&mut self, template: &Template, _frame_index: usize) -> Result<i64, JsonNumError> {
        if self.fails_to_sample == Some(*template) {
            return Err(JsonNumError::ExpDistribution);
        }
        self.sampled.push(*template);
        Ok(template.len() as i64)
    }

    fn get_value_at(&self, event: &i64, time: Real) -> Real {
        event * time
    }

    fn draw(&mut self, _attributes: &Kind, _time: Time, _frame_index: usize) -> Result<Real, JsonNumError> {
        if self.fails_to_draw {
            return Err(JsonNumError::NormalDistribution);
        }
        self.draws += 1;
        Ok(self.draw)
    }
}

#[test]
fn templates_of_an_event_list() {
    let simulation = simulation();
    let env = Environment::new();
    let mut rng = StdRng::seed_from_u64(4);
    let templates = simulation
        .choose_templates(3, &simulation.event_lists[0], &env, &mut rng)
        .unwrap();
    assert_eq!(templates.len(), 50);
    assert!(templates
        .iter()
        .all(|template| **template == "flat" || **template == "triangular"));
    assert!(templates.iter().any(|template| **template == "flat"));
    assert!(templates.iter().any(|template| **template == "triangular"));
    for template in &templates {
        assert!(simulation
            .pulses
            .iter()
            .any(|own| std::ptr::eq(own, *template)));
    }
}

#[test]
fn event_lists_of_a_frame() {
    let simulation = simulation();
    let env = Environment::new();
    let mut rng = StdRng::seed_from_u64(5);
    let mut model = ramps(0);
    let lists = simulation
        .generate_event_lists(0, 3, 6, &env, &mut rng, &mut model)
        .unwrap();
    assert_eq!(lists.len(), 6);
    for list in &lists {
        assert_eq!(list.pulses.len(), 50);
        // A pulse is the length of the name of its template.
        assert!(list.pulses.iter().all(|pulse| *pulse == 4 || *pulse == 10));
        assert!(std::ptr::eq(list.noises, &simulation.event_lists[0].noises));
    }
    assert_eq!(model.sampled.len(), 300);
    assert!(model.sampled.contains(&"flat"));
    assert!(model.sampled.contains(&"triangular"));
    assert!(!model.sampled.contains(&"back-to-back-exp"));

    // The template that the simulation does not have has no weight, and is never chosen.
    let lists = simulation
        .generate_event_lists(1, 3, 40, &env, &mut rng, &mut model)
        .unwrap();
    assert_eq!(lists.len(), 40);
    for list in &lists {
        assert!((2..5).contains(&list.pulses.len()));
        assert!(list.pulses.iter().all(|pulse| *pulse == 16));
    }
    assert!(lists.iter().any(|list| list.pulses.len() != 2));
    assert_eq!(
        simulation
            .generate_event_lists(1, 3, 0, &env, &mut rng, &mut model)
            .map(|lists| lists.len()),
        Ok(0)
    );
}

#[test]
fn event_lists_are_the_same_from_the_same_seed() {
    let simulation = simulation();
    let env = Environment::new();
    let mut first = ramps(0);
    let mut second = ramps(0);
    let lists = simulation
        .generate_event_lists(1, 0, 30, &env, &mut StdRng::seed_from_u64(77), &mut first)
        .unwrap();
    let again = simulation
        .generate_event_lists(1, 0, 30, &env, &mut StdRng::seed_from_u64(77), &mut second)
        .unwrap();
    let lengths: Vec<usize> = lists.iter().map(|list| list.pulses.len()).collect();
    let lengths_again: Vec<usize> = again.iter().map(|list| list.pulses.len()).collect();
    assert_eq!(lengths, lengths_again);
    assert_eq!(first.sampled, second.sampled);
}

#[test]
fn event_lists_that_cannot_be_made() {
    let mut simulation = simulation();
    let env = Environment::new();
    let mut rng = StdRng::seed_from_u64(6);
    let mut model = ramps(0);
    assert_eq!(
        simulation
            .generate_event_lists(2, 0, 1, &env, &mut rng, &mut model)
            .err(),
        Some(SimulationError::EventListIndexOutOfRange(2, 2))
    );
    assert_eq!(
        simulation
            .generate_event_lists(2, 0, 0, &env, &mut rng, &mut model)
            .err(),
        Some(SimulationError::EventListIndexOutOfRange(2, 2))
    );
    model.fails_to_sample = Some("back-to-back-exp");
    assert_eq!(
        simulation
            .generate_event_lists(1, 0, 1, &env, &mut rng, &mut model)
            .err(),
        Some(SimulationError::Model(JsonNumError::ExpDistribution))
    );
    simulation.event_lists[1].pulses[0].pulse_index = 3;
    assert_eq!(
        simulation
            .generate_event_lists(1, 0, 1, &env, &mut rng, &mut model)
            .err(),
        Some(SimulationError::EventPulseTemplateIndexOutOfRange(0, 2))
    );
    simulation.event_lists[1].pulses[0].weight = 0;
    assert_eq!(
        simulation
            .generate_event_lists(1, 0, 1, &env, &mut rng, &mut model)
            .err(),
        Some(SimulationError::Weights(WeightError::InsufficientNonZero))
    );
    simulation.event_lists[1].pulses[1].weight = -1;
    assert_eq!(
        simulation
            .choose_templates(0, &simulation.event_lists[1], &env, &mut rng)
            .err(),
        Some(SimulationError::Weights(WeightError::InvalidWeight))
    );
    simulation.event_lists[1].pulses.clear();
    assert_eq!(
        EventList::new(
            &simulation,
            0,
            &simulation.event_lists[1],
            &env,
            &mut rng,
            &mut model
        )
        .err(),
        Some(SimulationError::Weights(WeightError::InvalidInput))
    );
    simulation.event_lists[1].num_pulses = IntRandomDistribution::ConstantInt {
        value: NumExpression::FromEnvVar("PULSES".to_string()),
    };
    assert_eq!(
        simulation
            .generate_event_lists(1, 0, 1, &env, &mut rng, &mut model)
            .err(),
        Some(SimulationError::JsonValue(JsonNumError::EnvVar))
    );
}

#[test]
fn noise_source_is_active_within_its_bounds() {
    let env = Environment::new();
    let source = noise_source(10, 20, 1);
    assert_eq!(source.is_active(9, 0, &env), Ok(false));
    assert_eq!(source.is_active(10, 0, &env), Ok(true));
    assert_eq!(source.is_active(20, 0, &env), Ok(true));
    assert_eq!(source.is_active(21, 0, &env), Ok(false));
    assert_eq!(source.sample(15, 0, &env, parts(2.5)), Ok(parts(2.5)));
    assert_eq!(source.sample(25, 0, &env, parts(2.5)), Ok(0));
    let moving = NoiseSource {
        bounds: Interval {
            min: NumExpression::NumFunc(Transformation {
                scale: 10,
                translate: 0,
            }),
            max: NumExpression::FromEnvVar("END".to_string()),
        },
        attributes: "uniform",
        smoothing_window_length: NumExpression::Const(1),
    };
    let env = variables(&[("END", "100")]);
    assert_eq!(moving.is_active(25, 2, &env), Ok(true));
    assert_eq!(moving.is_active(25, 3, &env), Ok(false));
    assert_eq!(
        moving.is_active(25, 3, &Environment::new()),
        Err(JsonNumError::EnvVar)
    );
}

#[test]
fn noise_is_averaged_over_the_last_samples() {
    let env = Environment::new();
    let source = noise_source(0, 100, 3);
    let mut noise = Noise::new(&source);
    // The samples held are 3; 3 and 6; 3, 6 and 0; 6, 0 and 9.
    assert_eq!(noise.noisify(parts(10.0), 0, 0, &env, parts(3.0)), Ok(parts(13.0)));
    assert_eq!(noise.noisify(parts(10.0), 1, 0, &env, parts(6.0)), Ok(parts(14.5)));
    assert_eq!(noise.noisify(parts(10.0), 2, 0, &env, parts(0.0)), Ok(parts(13.0)));
    assert_eq!(noise.noisify(parts(10.0), 3, 0, &env, parts(9.0)), Ok(parts(15.0)));
    // Beyond the bounds of the source the sample is zero.
    assert_eq!(noise.noisify(parts(-1.0), 101, 0, &env, parts(9.0)), Ok(parts(2.0)));
}

#[test]
fn noise_without_smoothing() {
    let env = Environment::new();
    let source = noise_source(0, 100, 1);
    let mut noise = Noise::new(&source);
    assert_eq!(noise.noisify(parts(10.0), 0, 0, &env, parts(3.0)), Ok(parts(13.0)));
    assert_eq!(noise.noisify(parts(10.0), 1, 0, &env, parts(-6.0)), Ok(parts(4.0)));
}

#[test]
fn noise_that_cannot_be_made() {
    let env = Environment::new();
    let source = noise_source(0, 100, 0);
    let mut noise = Noise::new(&source);
    assert_eq!(
        noise.noisify(parts(10.0), 0, 0, &env, parts(3.0)),
        Err(JsonNumError::EmptyWindow)
    );
    let source = NoiseSource {
        bounds: Interval {
            min: NumExpression::Const(0),
            max: NumExpression::FromEnvVar("END".to_string()),
        },
        attributes: "uniform",
        smoothing_window_length: NumExpression::NumFunc(Transformation {
            scale: 1,
            translate: 1,
        }),
    };
    let mut noise = Noise::new(&source);
    assert_eq!(
        noise.noisify(parts(10.0), 0, 0, &env, parts(3.0)),
        Err(JsonNumError::EnvVar)
    );
    // After the failure the noise goes on as if nothing had been.
    let env = variables(&[("END", "5")]);
    assert_eq!(noise.noisify(parts(10.0), 0, 0, &env, parts(3.0)), Ok(parts(13.0)));
    assert_eq!(noise.noisify(parts(10.0), 0, 1, &env, parts(5.0)), Ok(parts(14.0)));
}

#[test]
fn trace_of_an_event_list() {
    let simulation = simulation();
    let env = Environment::new();
    let list = EventList {
        pulses: vec![1],
        noises: &simulation.event_lists[0].noises,
    };
    let mut model = ramps(parts(4.0));
    // The signal is 0, 1, 2, 3 and the voltage 1, 3, 5, 7. The noise is 4 up
    // to the time 2 and 0 after it, and is averaged over two samples.
    assert_eq!(
        Trace::new(&simulation, 0, &list, &env, &mut model),
        Ok(Trace {
            intensities: vec![5, 7, 9, 9]
        })
    );
    // Nothing is drawn for the sample at 3, where the source is not active.
    assert_eq!(model.draws, 3);
    // Two pulses add up to a signal of 0, 3, 6, 9 and a voltage of 1, 7, 13, 19.
    let list = EventList {
        pulses: vec![1, 2],
        noises: &simulation.event_lists[0].noises,
    };
    assert_eq!(
        Trace::new(&simulation, 0, &list, &env, &mut model),
        Ok(Trace {
            intensities: vec![5, 11, 17, 21]
        })
    );
    // Without pulses and noise the voltage of no signal is left.
    let silent = Vec::new();
    let list: EventList<i64, Kind> = EventList {
        pulses: vec![],
        noises: &silent,
    };
    assert_eq!(
        Trace::new(&simulation, 0, &list, &env, &mut model),
        Ok(Trace {
            intensities: vec![1, 1, 1, 1]
        })
    );
}

#[test]
fn traces_of_a_frame() {
    let mut simulation = simulation();
    simulation.time_bins = NumConstant::FromEnvVar("BINS".to_string());
    let env = variables(&[("BINS", "30")]);
    let mut rng = StdRng::seed_from_u64(8);
    let mut model = ramps(0);
    for (index, repeat) in [(0, 7), (1, 3), (1, 0)] {
        let lists = simulation
            .generate_event_lists(index, 2, repeat, &env, &mut rng, &mut model)
            .unwrap();
        let traces = simulation
            .generate_traces(&lists, 2, &env, &mut model)
            .unwrap();
        assert_eq!(traces.len(), lists.len());
        assert_eq!(traces.len(), repeat);
        for trace in &traces {
            assert_eq!(trace.intensities.len(), 30);
        }
    }
    // The one source of the first recipe is active at three places of each of seven traces.
    assert_eq!(model.draws, 21);
}

#[test]
fn traces_that_cannot_be_made() {
    let mut simulation = simulation();
    let mut rng = StdRng::seed_from_u64(9);
    let mut model = ramps(0);
    let env = Environment::new();
    simulation.event_lists[0].noises.push(noise_source(0, 5, 0));
    simulation.time_bins = NumConstant::FromEnvVar("BINS".to_string());
    let lists = simulation
        .generate_event_lists(0, 2, 2, &env, &mut rng, &mut model)
        .unwrap();
    assert_eq!(
        simulation.generate_traces(&lists, 2, &env, &mut model),
        Err(SimulationError::JsonValue(JsonNumError::EnvVar))
    );
    assert_eq!(
        simulation.generate_traces(&[], 2, &env, &mut model),
        Ok(vec![])
    );
    let env = variables(&[("BINS", "3")]);
    assert_eq!(
        simulation.generate_traces(&lists, 2, &env, &mut model),
        Err(SimulationError::JsonValue(JsonNumError::EmptyWindow))
    );
    model.fails_to_draw = true;
    assert_eq!(
        simulation.generate_traces(&lists, 2, &env, &mut model),
        Err(SimulationError::Model(JsonNumError::NormalDistribution))
    );
    // A trace without samples asks nothing of its noise.
    let env = variables(&[("BINS", "0")]);
    assert_eq!(
        simulation.generate_traces(&lists, 2, &env, &mut model),
        Ok(vec![
            Trace {
                intensities: vec![]
            },
            Trace {
                intensities: vec![]
            }
        ])
    );
    simulation.sample_rate = NumConstant::FromEnvVar("RATE".to_string());
    let lists = simulation
        .generate_event_lists(0, 2, 1, &env, &mut rng, &mut model)
        .unwrap();
    assert_eq!(
        simulation.generate_traces(&lists, 2, &env, &mut model),
        Err(SimulationError::JsonValue(JsonNumError::EnvVar))
    );
}

#[test]
fn nothing_is_drawn_for_a_source_that_is_not_active() {
    let mut simulation = simulation();
    let env = Environment::new();
    // The source is active from 10 on, and the trace has the places 0 to 3.
    simulation.event_lists[0].noises = vec![noise_source(10, 20, 1)];
    let list = EventList {
        pulses: vec![1],
        noises: &simulation.event_lists[0].noises,
    };
    let mut model = ramps(parts(4.0));
    model.fails_to_draw = true;
    assert_eq!(
        Trace::new(&simulation, 0, &list, &env, &mut model),
        Ok(Trace {
            intensities: vec![1, 3, 5, 7]
        })
    );
    simulation.event_lists[0].noises = vec![noise_source(3, 20, 1)];
    let list = EventList {
        pulses: vec![1],
        noises: &simulation.event_lists[0].noises,
    };
    assert_eq!(
        Trace::new(&simulation, 0, &list, &env, &mut model),
        Err(SimulationError::Model(JsonNumError::NormalDistribution))
    );
}

#[test]
fn no_event_list_is_always_made() {
    let mut simulation = simulation();
    let env = Environment::new();
    let mut rng = StdRng::seed_from_u64(12);
    let mut model = ramps(0);
    model.fails_to_sample = Some("back-to-back-exp");
    simulation.event_lists[1].num_pulses = IntRandomDistribution::ConstantInt {
        value: NumExpression::FromEnvVar("PULSES".to_string()),
    };
    // Without an event list to make, the number of its pulses is not looked at.
    assert_eq!(
        simulation
            .generate_event_lists(1, 0, 0, &env, &mut rng, &mut model)
            .map(|lists| lists.len()),
        Ok(0)
    );
    // Event lists without pulses ask nothing of the model.
    simulation.event_lists[1].num_pulses = IntRandomDistribution::ConstantInt {
        value: NumExpression::Const(0),
    };
    let lists = simulation
        .generate_event_lists(1, 0, 5, &env, &mut rng, &mut model)
        .unwrap();
    assert_eq!(lists.len(), 5);
    assert!(lists.iter().all(|list| list.pulses.is_empty()));
}

#[test]
fn sample_of_values_and_draws() {
    let env = Environment::new();
    let sources = vec![noise_source(0, 9, 1), noise_source(5, 9, 2)];
    let mut noises: Vec<Noise<Kind>> = sources.iter().map(Noise::new).collect();
    let line = Transformation {
        scale: parts(2.0),
        translate: parts(1.0),
    };
    // The signal is 1.5 + 2.25 = 3.75 and the voltage 8.5. The first noise
    // adds 1 and the second, which is not active at 0, nothing.
    assert_eq!(
        make_sample(
            &mut noises,
            &line,
            &vec![parts(1.5), parts(2.25)],
            &vec![parts(1.0), parts(8.0)],
            0,
            0,
            &env
        ),
        Ok(9)
    );
    // At 5 the second noise holds 0 and 8, and adds their mean.
    assert_eq!(
        make_sample(
            &mut noises,
            &line,
            &vec![parts(1.5), parts(2.25)],
            &vec![parts(1.0), parts(8.0)],
            5,
            0,
            &env
        ),
        Ok(13)
    );
    assert_eq!(
        make_sample(&mut noises, &line, &vec![], &vec![parts(-9.0), 0], 6, 0, &env),
        Ok(0)
    );
    assert_eq!(sum_values(&vec![parts(1.5), parts(2.25), parts(-4.0)]), parts(-0.25));
    assert_eq!(sum_values(&vec![Real::MAX, Real::MAX, Real::MIN]), -1);
    assert_eq!(sum_values(&vec![]), 0);
}

#[test]
fn time_of_a_sample() {
    assert_eq!(bin_time(1_000_000_000, 0), 0);
    assert_eq!(bin_time(1_000_000_000, 7), parts(7.0));
    assert_eq!(bin_time(500_000_000, 7), parts(14.0));
    assert_eq!(bin_time(0, 0), 0);
    assert_eq!(bin_time(0, 1), Real::MAX);
}

#[test]
fn noises_in_turn() {
    let env = Environment::new();
    let sources = vec![noise_source(0, 9, 1), noise_source(5, 9, 2)];
    let mut noises: Vec<Noise<Kind>> = sources.iter().map(Noise::new).collect();
    let draws = vec![parts(1.0), parts(8.0)];
    assert_eq!(
        apply_noises(&mut noises, parts(10.0), 0, 0, &env, &draws),
        Ok(parts(11.0))
    );
    assert_eq!(
        apply_noises(&mut noises, parts(10.0), 5, 0, &env, &draws),
        Ok(parts(15.0))
    );
    assert_eq!(
        apply_noises(&mut Vec::<Noise<Kind>>::new(), parts(10.0), 5, 0, &env, &vec![]),
        Ok(parts(10.0))
    );
}

#[test]
fn time_between_samples() {
    assert_eq!(sample_time(1_000_000_000), parts(1.0));
    assert_eq!(sample_time(500_000_000), parts(2.0));
    assert_eq!(sample_time(3_000_000_000), 333_333);
    assert_eq!(sample_time(1), parts(1e9));
    assert_eq!(sample_time(0), Real::MAX);
}

#[test]
fn voltage_of_a_signal() {
    let line = Transformation {
        scale: parts(2.5),
        translate: parts(-1.0),
    };
    assert_eq!(transform_scalar(&line, parts(4.0)), parts(9.0));
    assert_eq!(transform_scalar(&line, parts(0.0)), parts(-1.0));
    // The product saturates before the line's value at zero is added.
    assert_eq!(transform_scalar(&line, Real::MAX), Real::MAX - parts(1.0));
}

const JSON_INPUT_1: &str = r#"
{
    "voltage-transformation": {"scale": 1, "translate": 0 },
    "time-bins": { "const": 30000 },
    "sample-rate": { "const": 1000000000 },
    "digitiser-config": {
        "auto-digitisers": {
            "num-digitisers": { "const" : 32 },
            "num-channels-per-digitiser": { "const" : 8 }
        }
    },
    "pulses": [{
                    "pulse-type": "back-to-back-exp",
                    "spread":      { "random-type": "constant-float", "value": { "const": 5.5 } },
                    "rising":      { "random-type": "constant-float", "value": { "const": 3.5 } },
                    "falling":     { "random-type": "constant-float", "value": { "const": 2.4 } },
                    "peak_time":   { "random-type": "exponential", "lifetime": { "const": 2200 } },
                    "peak_height": { "random-type": "uniform-float", "min": { "const": 250 }, "max": { "const": 1100 } }
                },
                {
                    "pulse-type": "flat",
                    "start":  { "random-type": "exponential", "lifetime": { "const": 2200 } },
                    "width":  { "random-type": "uniform-float", "min": { "const": 20 }, "max": { "const": 50 } },
                    "height": { "random-type": "uniform-float", "min": { "const": 30 }, "max": { "const": 70 } }
                },
                {
                    "pulse-type": "triangular",
                    "start":     { "random-type": "exponential", "lifetime": { "const": 2200 } },
                    "width":     { "random-type": "uniform-float", "min": { "const": 20 }, "max": { "const": 50 } },
                    "peak_time": { "random-type": "uniform-float", "min": { "const": 0.25 }, "max": { "const": 0.75 } },
                    "height":    { "random-type": "uniform-float", "min": { "const": 30 }, "max": { "const": 70 } }
                }],
    "event-lists": [
        {
            "pulses": [
                {"weight": 1, "pulse-index": 0},
                {"weight": 1, "pulse-index": 1},
                {"weight": 1, "pulse-index": 2}
            ],
            "noises": [
                {
                    "attributes": { "noise-type" : "gaussian", "mean" : { "const": 0 }, "sd" : { "const": 20 } },
                    "smoothing-factor" : { "const": 0.975 },
                    "bounds" : { "min": 0, "max": 30000 }
                },
                {
                    "attributes": { "noise-type" : "gaussian", "mean" : { "const": 0 }, "sd" : { "num-func": { "scale": 50, "translate": 50 } } },
                    "smoothing-factor" : { "const": 0.995 },
                    "bounds" : { "min": 0, "max": 30000 }
                }
            ],
            "num-pulses": { "random-type": "constant-int", "value": { "const": 500 } }
        }
    ],
    "schedule": [
        { "send-run-start": { "name": { "text": "MyRun" }, "filename": { "text": "RunFile" }, "instrument": { "text": "MuSR" } } },
        { "set-timestamp": "now" },
        { "wait-ms": 100 },
        { "frame-loop": {
                "start": { "const": 0 },
                "end": { "const": 99 },
                "schedule": [
                    { "set-timestamp": { "advance-by-ms" : 5} },
                    { "set-timestamp": { "rewind-by-ms" : 5} }
                ]
            }
        }
    ]
}
"#;

fn whole(value: &Value) -> u64 {
    value.as_u64().unwrap()
}

fn constant(value: &Value) -> NumConstant<usize> {
    match value.get("const") {
        Some(number) => NumConstant::Const(whole(number) as usize),
        None => NumConstant::FromEnvVar(value["from-env-var"].as_str().unwrap().to_string()),
    }
}

fn bound(value: &Value) -> NumExpression<Time> {
    match value.as_u64() {
        Some(number) => NumExpression::Const(number as Time),
        None => NumExpression::Const(whole(&value["const"]) as Time),
    }
}

fn load(text: &str) -> Simulation<Value, Value> {
    let json: Value = serde_json::from_str(text).unwrap();
    let layout = &json["digitiser-config"]["auto-digitisers"];
    Simulation {
        voltage_transformation: Transformation {
            scale: parts(json["voltage-transformation"]["scale"].as_f64().unwrap()),
            translate: parts(json["voltage-transformation"]["translate"].as_f64().unwrap()),
        },
        time_bins: NumConstant::Const(whole(&json["time-bins"]["const"]) as Time),
        sample_rate: NumConstant::Const(whole(&json["sample-rate"]["const"])),
        digitiser_config: DigitiserConfig::AutoDigitisers {
            num_digitisers: constant(&layout["num-digitisers"]),
            num_channels_per_digitiser: constant(&layout["num-channels-per-digitiser"]),
        },
        event_lists: json["event-lists"]
            .as_array()
            .unwrap()
            .iter()
            .map(|list| EventListTemplate {
                pulses: list["pulses"]
                    .as_array()
                    .unwrap()
                    .iter()
                    .map(|pulse| EventPulseTemplate {
                        weight: parts(pulse["weight"].as_f64().unwrap()),
                        pulse_index: whole(&pulse["pulse-index"]) as usize,
                    })
                    .collect(),
                noises: list["noises"]
                    .as_array()
                    .unwrap()
                    .iter()
                    .map(|noise| NoiseSource {
                        bounds: Interval {
                            min: bound(&noise["bounds"]["min"]),
                            max: bound(&noise["bounds"]["max"]),
                        },
                        attributes: noise["attributes"].clone(),
                        smoothing_window_length: NumExpression::Const(1),
                    })
                    .collect(),
                num_pulses: IntRandomDistribution::ConstantInt {
                    value: NumExpression::Const(whole(&list["num-pulses"]["value"]["const"]) as usize),
                },
            })
            .collect(),
        pulses: json["pulses"].as_array().unwrap().clone(),
    }
}

#[test]
fn test1() {
    let simulation = load(JSON_INPUT_1);

    assert_eq!(simulation.pulses.len(), 3);
    assert_eq!(simulation.voltage_transformation.scale, parts(1.0));
    assert_eq!(simulation.voltage_transformation.translate, parts(0.0));
}

/// A model whose pulses are the types of their templates, and are worth nothing.
struct Silence;

impl PulseModel<Value, Value> for Silence {
    type Event = String;

    fn sample(&mut self, template: &Value, _frame_index: usize) -> Result<String, JsonNumError> {
        Ok(template["pulse-type"].as_str().unwrap().to_string())
    }

    fn get_value_at(&self, _event: &String, _time: Real) -> Real {
        0
    }

    fn draw(&mut self, _attributes: &Value, _time: Time, _frame_index: usize) -> Result<Real, JsonNumError> {
        Ok(0)
    }
}

#[test]
fn simulation_end_to_end() {
    let simulation = load(JSON_INPUT_1);
    let env = Environment::new();
    assert_eq!(simulation.pulses.len(), 3);
    assert_eq!(simulation.event_lists.len(), 1);
    assert_eq!(simulation.validate(), Ok(()));

    let channels = simulation.digitiser_config.generate_channels(&env).unwrap();
    let digitisers = simulation
        .digitiser_config
        .generate_digitisers(&env)
        .unwrap();
    assert_eq!(channels.len(), 256);
    assert_eq!(digitisers.len(), 32);
    let mut next = 0;
    for digitiser in &digitisers {
        assert_eq!(digitiser.channel_indices.len(), 8);
        for index in &digitiser.channel_indices {
            assert_eq!(*index, next);
            next += 1;
        }
    }
    assert_eq!(next, channels.len());

    let mut rng = StdRng::seed_from_u64(100);
    let lists = simulation
        .generate_event_lists(0, 0, 2, &env, &mut rng, &mut Silence)
        .unwrap();
    assert_eq!(lists.len(), 2);
    assert_eq!(lists[0].pulses.len(), 500);
    for kind in ["back-to-back-exp", "flat", "triangular"] {
        assert!(lists[0].pulses.iter().any(|pulse| pulse == kind));
    }
    let traces: Vec<Trace> = simulation
        .generate_traces(&lists, 0, &env, &mut Silence)
        .unwrap();
    assert_eq!(traces.len(), 2);
    assert_eq!(traces[0].intensities.len(), 30000);
    assert_eq!(traces[1].intensities, vec![0 as Intensity; 30000]);
}
