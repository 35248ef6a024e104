//! The layout of digitisers and channels.
use super::interval::Interval;
use super::utils::{Environment, JsonNumError, NumConstant, Number};
use vstd::prelude::*;

verus! {

/// The number of a channel.
pub type Channel = u32;

/// The number of a digitiser.
pub type DigitizerId = u8;

/// A digitiser and the channels it serves.
#[derive(Clone, Copy, Debug)]
pub struct Digitiser {
    /// The number of the digitiser.
    pub id: DigitizerId,
    /// The channels of the digitiser.
    pub channels: Interval<Channel>,
}

/// A digitiser and the places of its channels in the list of all channels.
#[derive(Clone, Debug, PartialEq)]
pub struct SimulationEngineDigitiser {
    /// The number of the digitiser.
    pub id: DigitizerId,
    /// The places of the digitiser's channels in the list of all channels.
    pub channel_indices: Vec<usize>,
}

impl SimulationEngineDigitiser {
    /// The digitiser's number and the places of its channels.
    pub open spec fn view(&self) -> (DigitizerId, Seq<usize>) {
        (self.id, self.channel_indices@)
    }

    /// A digitiser with the given number and channels.
    pub fn new(id: DigitizerId, channel_indices: Vec<usize>) -> (r: Self)
        ensures
            r@ == (id, channel_indices@),
    {
        SimulationEngineDigitiser { id, channel_indices }
    }
}

/// How the channels of a simulation are laid out.
#[derive(Clone, Debug)]
pub enum DigitiserConfig {
    /// A number of channels, counted from zero, without digitisers.
    AutoAggregatedFrame { num_channels: NumConstant<usize> },
    /// The given channels, without digitisers.
    ManualAggregatedFrame { channels: Vec<Channel> },
    /// A number of digitisers, counted from zero, with equally many channels each.
    AutoDigitisers {
        num_digitisers: NumConstant<usize>,
        num_channels_per_digitiser: NumConstant<usize>,
    },
    /// The given digitisers, each with its run of channels.
    ManualDigitisers(Vec<Digitiser>),
}

/// The channels `0, 1, …, count - 1`.
pub open spec fn channels_up_to(count: int) -> Seq<Channel> {
    Seq::new(count as nat, |i: int| i as Channel)
}

/// The channels of an interval, in rising order. An interval whose least
/// channel is above its greatest has none.
pub open spec fn interval_channels(interval: Interval<Channel>) -> Seq<Channel> {
    if interval.min <= interval.max {
        Seq::new((interval.max - interval.min + 1) as nat, |i: int| (interval.min + i) as Channel)
    } else {
        Seq::empty()
    }
}

/// The channels of some digitisers, one digitiser after the other.
pub open spec fn manual_channels(digitisers: Seq<Digitiser>) -> Seq<Channel>
    decreases digitisers.len(),
{
    if digitisers.len() == 0 {
        Seq::empty()
    } else {
        manual_channels(digitisers.drop_last()) + interval_channels(digitisers.last().channels)
    }
}

/// The places `from, from + 1, …, from + count - 1`.
pub open spec fn places(from: int, count: int) -> Seq<usize> {
    Seq::new(count as nat, |i: int| (from + i) as usize)
}

/// Digitisers counted from zero with `per_digitiser` channels each: the
/// digitiser `d` has the places from `d * per_digitiser` on. A digitiser
/// number has eight bits, so the digitiser `d` has the number `d % 256`.
pub open spec fn auto_digitisers(count: int, per_digitiser: int) -> Seq<(DigitizerId, Seq<usize>)> {
    Seq::new(
        count as nat,
        |d: int| ((d % 256) as DigitizerId, places(d * per_digitiser, per_digitiser)),
    )
}

/// The given digitisers, each with the places that its channels have in the
/// list of all channels.
pub open spec fn manual_digitisers(digitisers: Seq<Digitiser>) -> Seq<(DigitizerId, Seq<usize>)> {
    Seq::new(
        digitisers.len(),
        |k: int|
            (
                digitisers[k].id,
                places(
                    manual_channels(digitisers.take(k)).len() as int,
                    interval_channels(digitisers[k].channels).len() as int,
                ),
            ),
    )
}

/// All places of some digitisers, one digitiser after the other.
pub open spec fn all_places(digitisers: Seq<(DigitizerId, Seq<usize>)>) -> Seq<usize>
    decreases digitisers.len(),
{
    if digitisers.len() == 0 {
        Seq::empty()
    } else {
        all_places(digitisers.drop_last()) + digitisers.last().1
    }
}

/// The views of some digitisers.
pub open spec fn digitiser_views(digitisers: Seq<SimulationEngineDigitiser>) -> Seq<
    (DigitizerId, Seq<usize>),
> {
    Seq::new(digitisers.len(), |i: int| digitisers[i]@)
}

impl DigitiserConfig {
    /// The list of all channels, or why there is none.
    ///
    /// A channel number has 32 bits: of a count of channels the lowest 32
    /// bits count. A product of counts that is too large for a count fails
    /// with `Overflow`.
    pub open spec fn spec_channels(self, environment: Seq<(Seq<char>, Seq<char>)>) -> Result<
        Seq<Channel>,
        JsonNumError,
    > {
        match self {
            DigitiserConfig::AutoAggregatedFrame { num_channels } => match num_channels.spec_value(
                environment,
            ) {
                Err(error) => Err(error),
                Ok(count) => Ok(channels_up_to(count % 0x1_0000_0000)),
            },
            DigitiserConfig::ManualAggregatedFrame { channels } => Ok(channels@),
            DigitiserConfig::AutoDigitisers {
                num_digitisers,
                num_channels_per_digitiser,
            } => match num_digitisers.spec_value(environment) {
                Err(error) => Err(error),
                Ok(count) => match num_channels_per_digitiser.spec_value(environment) {
                    Err(error) => Err(error),
                    Ok(per_digitiser) => if count * per_digitiser > usize::MAX {
                        Err(JsonNumError::Overflow)
                    } else {
                        Ok(channels_up_to((count * per_digitiser) % 0x1_0000_0000))
                    },
                },
            },
            DigitiserConfig::ManualDigitisers(digitisers) => Ok(manual_channels(digitisers@)),
        }
    }

    /// The digitisers with the places of their channels, or why there are none.
    ///
    /// Without digitisers the number of channels per digitiser is not looked
    /// at. Places that are too large fail with `Overflow`.
    pub open spec fn spec_digitisers(self, environment: Seq<(Seq<char>, Seq<char>)>) -> Result<
        Seq<(DigitizerId, Seq<usize>)>,
        JsonNumError,
    > {
        match self {
            DigitiserConfig::AutoAggregatedFrame { .. } => Ok(Seq::empty()),
            DigitiserConfig::ManualAggregatedFrame { .. } => Ok(Seq::empty()),
            DigitiserConfig::AutoDigitisers {
                num_digitisers,
                num_channels_per_digitiser,
            } => match num_digitisers.spec_value(environment) {
                Err(error) => Err(error),
                Ok(count) => if count == 0 {
                    Ok(Seq::empty())
                } else {
                    match num_channels_per_digitiser.spec_value(environment) {
                        Err(error) => Err(error),
                        Ok(per_digitiser) => if count * per_digitiser > usize::MAX {
                            Err(JsonNumError::Overflow)
                        } else {
                            Ok(auto_digitisers(count, per_digitiser))
                        },
                    }
                },
            },
            DigitiserConfig::ManualDigitisers(digitisers) => if manual_channels(digitisers@).len()
                > usize::MAX {
                Err(JsonNumError::Overflow)
            } else {
                Ok(manual_digitisers(digitisers@))
            },
        }
    }

    /// Makes the list of all channels.
    pub fn generate_channels(&self, environment: &Environment) -> (r: Result<
        Vec<Channel>,
        JsonNumError,
    >)
        ensures
            match r {
                Ok(channels) => self.spec_channels(environment@) == Ok::<
                    Seq<Channel>,
                    JsonNumError,
                >(channels@),
                Err(error) => self.spec_channels(environment@) == Err::<Seq<Channel>, JsonNumError>(
                    error,
                ),
            },
    {
        match self {
            DigitiserConfig::AutoAggregatedFrame { num_channels } => {
                let count = match num_channels.value(environment) {
                    Ok(count) => count,
                    Err(error) => {
                        return Err(error);
                    },
                };
                Ok(count_channels((count as u64 % 0x1_0000_0000) as Channel))
            },
            DigitiserConfig::ManualAggregatedFrame { channels } => Ok(channels.clone()),
            DigitiserConfig::AutoDigitisers { num_digitisers, num_channels_per_digitiser } => {
                let count = match num_digitisers.value(environment) {
                    Ok(count) => count,
                    Err(error) => {
                        return Err(error);
                    },
                };
                let per_digitiser = match num_channels_per_digitiser.value(environment) {
                    Ok(per_digitiser) => per_digitiser,
                    Err(error) => {
                        return Err(error);
                    },
                };
                match count.checked_mul(per_digitiser) {
                    None => Err(JsonNumError::Overflow),
                    Some(total) => Ok(count_channels((total as u64 % 0x1_0000_0000) as Channel)),
                }
            },
            DigitiserConfig::ManualDigitisers(digitisers) => {
                let mut channels: Vec<Channel> = Vec::new();
                for k in 0..digitisers.len()
                    invariant
                        channels@ == manual_channels(digitisers@.take(k as int)),
                {
                    proof {
                        assert(digitisers@.take(k + 1).drop_last() =~= digitisers@.take(k as int));
                    }
                    append_interval(&mut channels, &digitisers[k].channels);
                }
                proof {
                    assert(digitisers@.take(digitisers@.len() as int) =~= digitisers@);
                }
                Ok(channels)
            },
        }
    }

    /// Makes the digitisers with the places of their channels.
    pub fn generate_digitisers(&self, environment: &Environment) -> (r: Result<
        Vec<SimulationEngineDigitiser>,
        JsonNumError,
    >)
        ensures
            match r {
                Ok(digitisers) => self.spec_digitisers(environment@) == Ok::<
                    Seq<(DigitizerId, Seq<usize>)>,
                    JsonNumError,
                >(digitiser_views(digitisers@)),
                Err(error) => self.spec_digitisers(environment@) == Err::<
                    Seq<(DigitizerId, Seq<usize>)>,
                    JsonNumError,
                >(error),
            },
    {
        match self {
            DigitiserConfig::AutoAggregatedFrame { .. } => {
                let digitisers: Vec<SimulationEngineDigitiser> = Vec::new();
                proof {
                    assert(digitiser_views(digitisers@) =~= Seq::empty());
                }
                Ok(digitisers)
            },
            DigitiserConfig::ManualAggregatedFrame { .. } => {
                let digitisers: Vec<SimulationEngineDigitiser> = Vec::new();
                proof {
                    assert(digitiser_views(digitisers@) =~= Seq::empty());
                }
                Ok(digitisers)
            },
            DigitiserConfig::AutoDigitisers { num_digitisers, num_channels_per_digitiser } => {
                let count = match num_digitisers.value(environment) {
                    Ok(count) => count,
                    Err(error) => {
                        return Err(error);
                    },
                };
                let mut digitisers: Vec<SimulationEngineDigitiser> = Vec::new();
                if count == 0 {
                    proof {
                        assert(digitiser_views(digitisers@) =~= Seq::empty());
                    }
                    return Ok(digitisers);
                }
                let per_digitiser = match num_channels_per_digitiser.value(environment) {
                    Ok(per_digitiser) => per_digitiser,
                    Err(error) => {
                        return Err(error);
                    },
                };
                if count.checked_mul(per_digitiser).is_none() {
                    return Err(JsonNumError::Overflow);
                }
                for d in 0..count
                    invariant
                        count * per_digitiser <= usize::MAX,
                        digitisers@.len() == d,
                        digitiser_views(digitisers@) == auto_digitisers(
                            d as int,
                            per_digitiser as int,
                        ),
                {
                    assert(d * per_digitiser + per_digitiser <= count * per_digitiser)
                        by (nonlinear_arith)
                        requires
                            d < count,
                            per_digitiser >= 0,
                    ;
                    assert(d * per_digitiser >= 0) by (nonlinear_arith)
                        requires
                            d >= 0,
                            per_digitiser >= 0,
                    ;
                    let from: usize = d * per_digitiser;
                    let digitiser = SimulationEngineDigitiser::new(
                        (d % 256) as DigitizerId,
                        run_of_places(from, per_digitiser),
                    );
                    let ghost before = digitisers@;
                    digitisers.push(digitiser);
                    proof {
                        let after = auto_digitisers(d + 1, per_digitiser as int);
                        assert(digitiser_views(before) == auto_digitisers(
                            d as int,
                            per_digitiser as int,
                        ));
                        assert forall|i: int| 0 <= i < d + 1 implies digitiser_views(
                            digitisers@,
                        )[i] == after[i] by {
                            if i < d {
                                assert(digitiser_views(before)[i] == before[i]@);
                                assert(digitisers@[i] == before[i]);
                            }
                        }
                        assert(digitiser_views(digitisers@) =~= after);
                    }
                }
                Ok(digitisers)
            },
            DigitiserConfig::ManualDigitisers(sources) => {
                let mut digitisers: Vec<SimulationEngineDigitiser> = Vec::new();
                let mut from: usize = 0;
                for k in 0..sources.len()
                    invariant
                        from == manual_channels(sources@.take(k as int)).len(),
                        digitisers@.len() == k,
                        forall|j: int|
                            0 <= j < k ==> (#[trigger] digitisers@[j])@ == manual_digitisers(
                                sources@,
                            )[j],
                        self == DigitiserConfig::ManualDigitisers(*sources),
                {
                    proof {
                        assert(sources@.take(k + 1).drop_last() =~= sources@.take(k as int));
                        lemma_manual_channels_grow(sources@, k + 1);
                    }
                    let channels = &sources[k].channels;
                    let count: u64 = if channels.min <= channels.max {
                        (channels.max - channels.min) as u64 + 1
                    } else {
                        0
                    };
                    if count > usize::MAX as u64 || from > usize::MAX - count as usize {
                        return Err(JsonNumError::Overflow);
                    }
                    digitisers.push(
                        SimulationEngineDigitiser::new(
                            sources[k].id,
                            run_of_places(from, count as usize),
                        ),
                    );
                    from = from + count as usize;
                }
                proof {
                    assert(sources@.take(sources@.len() as int) =~= sources@);
                    assert(digitiser_views(digitisers@) =~= manual_digitisers(sources@));
                }
                Ok(digitisers)
            },
        }
    }
}

/// The list of channels grows with the list of digitisers.
pub proof fn lemma_manual_channels_grow(digitisers: Seq<Digitiser>, k: int)
    requires
        0 <= k <= digitisers.len(),
    ensures
        manual_channels(digitisers.take(k)).len() <= manual_channels(digitisers).len(),
    decreases digitisers.len() - k,
{
    if k < digitisers.len() {
        lemma_manual_channels_grow(digitisers, k + 1);
        assert(digitisers.take(k + 1).drop_last() =~= digitisers.take(k));
    } else {
        assert(digitisers.take(k) =~= digitisers);
    }
}

/// The channels `0, 1, …, count - 1`.
fn count_channels(count: Channel) -> (r: Vec<Channel>)
    ensures
        r@ == channels_up_to(count as int),
{
    let mut channels: Vec<Channel> = Vec::new();
    for channel in 0..count
        invariant
            channels@ == channels_up_to(channel as int),
    {
        channels.push(channel);
        proof {
            assert(channels@ =~= channels_up_to(channel + 1));
        }
    }
    channels
}

/// Appends the channels of an interval to a list.
fn append_interval(channels: &mut Vec<Channel>, interval: &Interval<Channel>)
    ensures
        final(channels)@ == old(channels)@ + interval_channels(*interval),
{
    if interval.min <= interval.max {
        let mut channel: Channel = interval.min;
        channels.push(channel);
        while channel < interval.max
            invariant
                interval.min <= channel <= interval.max,
                channels@ == old(channels)@ + Seq::new(
                    (channel - interval.min + 1) as nat,
                    |i: int| (interval.min + i) as Channel,
                ),
            decreases interval.max - channel,
        {
            channel += 1;
            channels.push(channel);
            proof {
                assert(channels@ =~= old(channels)@ + Seq::new(
                    (channel - interval.min + 1) as nat,
                    |i: int| (interval.min + i) as Channel,
                ));
            }
        }
    } else {
        proof {
            assert(channels@ =~= old(channels)@ + interval_channels(*interval));
        }
    }
}

/// The places `from, from + 1, …, from + count - 1`.
fn run_of_places(from: usize, count: usize) -> (r: Vec<usize>)
    requires
        from + count <= usize::MAX,
    ensures
        r@ == places(from as int, count as int),
{
    let mut run: Vec<usize> = Vec::new();
    for i in 0..count
        invariant
            from + count <= usize::MAX,
            run@ == places(from as int, i as int),
    {
        run.push(from + i);
        proof {
            assert(run@ =~= places(from as int, i + 1));
        }
    }
    run
}

/// Two runs of places that follow each other make one run.
pub proof fn lemma_places_join(from: int, first: int, second: int)
    requires
        0 <= first,
        0 <= second,
    ensures
        places(from, first) + places(from + first, second) == places(from, first + second),
{
    assert(places(from, first) + places(from + first, second) =~= places(from, first + second));
}

/// Automatic digitisers have the places from zero on, one run after the other.
pub proof fn lemma_auto_digitisers_places(count: int, per_digitiser: int)
    requires
        0 <= count,
        0 <= per_digitiser,
    ensures
        all_places(auto_digitisers(count, per_digitiser)) == places(0, count * per_digitiser),
    decreases count,
{
    let digitisers = auto_digitisers(count, per_digitiser);
    if count == 0 {
        assert(digitisers.len() == 0);
        assert(count * per_digitiser == 0);
        assert(places(0, 0) =~= Seq::<usize>::empty());
    } else {
        let before = (count - 1) * per_digitiser;
        lemma_auto_digitisers_places(count - 1, per_digitiser);
        assert(digitisers.len() == count);
        assert(digitisers.drop_last() =~= auto_digitisers(count - 1, per_digitiser));
        assert(digitisers.last().1 == places(before, per_digitiser));
        assert(count * per_digitiser == before + per_digitiser) by (nonlinear_arith)
            requires
                before == (count - 1) * per_digitiser,
        ;
        assert(before >= 0) by (nonlinear_arith)
            requires
                before == (count - 1) * per_digitiser,
                count >= 1,
                per_digitiser >= 0,
        ;
        lemma_places_join(0, before, per_digitiser);
        assert(all_places(digitisers) == all_places(digitisers.drop_last()) + digitisers.last().1);
    }
}

/// Manual digitisers have the places from zero on, one run after the other.
pub proof fn lemma_manual_digitisers_places(digitisers: Seq<Digitiser>)
    ensures
        all_places(manual_digitisers(digitisers)) == places(
            0,
            manual_channels(digitisers).len() as int,
        ),
    decreases digitisers.len(),
{
    if digitisers.len() == 0 {
        assert(places(0, 0) =~= Seq::<usize>::empty());
        assert(manual_digitisers(digitisers) =~= Seq::empty());
    } else {
        let shorter = digitisers.drop_last();
        lemma_manual_digitisers_places(shorter);
        assert forall|k: int| 0 <= k < shorter.len() implies manual_digitisers(shorter)[k]
            == manual_digitisers(digitisers)[k] by {
            assert(shorter.take(k) =~= digitisers.take(k));
        }
        assert(manual_digitisers(digitisers).drop_last() =~= manual_digitisers(shorter));
        assert(digitisers.take(digitisers.len() - 1) =~= shorter);
        let before = manual_channels(shorter).len() as int;
        let count = interval_channels(digitisers.last().channels).len() as int;
        assert(places(0, before) + places(before, count) =~= places(0, before + count));
    }
}

/// Whether there is a channel number for each channel of automatic digitisers.
pub open spec fn has_channel_numbers(
    config: DigitiserConfig,
    environment: Seq<(Seq<char>, Seq<char>)>,
) -> bool {
    match config {
        DigitiserConfig::AutoDigitisers {
            num_digitisers,
            num_channels_per_digitiser,
        } => match num_digitisers.spec_value(environment) {
            Err(_) => true,
            Ok(count) => match num_channels_per_digitiser.spec_value(environment) {
                Err(_) => true,
                Ok(per_digitiser) => count * per_digitiser <= Channel::MAX,
            },
        },
        _ => true,
    }
}

/// The digitisers share out the places of the channel list among them: the
/// runs of places of the digitisers, one after the other, are the places of
/// all channels in their order. (Where automatic digitisers have more
/// channels than there are channel numbers, the channel list is shorter than
/// the places of the digitisers.)
pub proof fn lemma_digitisers_share_out_channels(
    config: DigitiserConfig,
    environment: Seq<(Seq<char>, Seq<char>)>,
)
    requires
        config is AutoDigitisers || config is ManualDigitisers,
        has_channel_numbers(config, environment),
    ensures
        config.spec_channels(environment) matches Ok(channels) ==> (config.spec_digitisers(
            environment,
        ) matches Ok(digitisers) ==> all_places(digitisers) == places(0, channels.len() as int)),
{
    match config {
        DigitiserConfig::AutoDigitisers { num_digitisers, num_channels_per_digitiser } => {
            if let Ok(count) = num_digitisers.spec_value(environment) {
                if let Ok(per_digitiser) = num_channels_per_digitiser.spec_value(environment) {
                    if let NumConstant::Const(number) = num_digitisers {
                        number.lemma_fits();
                    }
                    if let NumConstant::Const(number) = num_channels_per_digitiser {
                        number.lemma_fits();
                    }
                    if count >= 0 && per_digitiser >= 0 {
                        lemma_auto_digitisers_places(count, per_digitiser);
                        assert(count * per_digitiser >= 0) by (nonlinear_arith)
                            requires
                                count >= 0,
                                per_digitiser >= 0,
                        ;
                        if count == 0 {
                            assert(places(0, 0) =~= Seq::<usize>::empty());
                        }
                    }
                }
            }
        },
        DigitiserConfig::ManualDigitisers(digitisers) => {
            lemma_manual_digitisers_places(digitisers@);
        },
        _ => {},
    }
}

} // verus!
