//! Evaluation: what each check finds in a weather snapshot.

use vstd::prelude::*;
use crate::config::{Check, CheckModel, Config};
use crate::flags::FlagSet;
use crate::stats::{least, mean, summarize};
use crate::weather::{all_readings, is_rain, ItemModel, ReadingModel, Root};

verus! {

/// Why a check was not evaluated.
#[derive(Clone, Copy, Debug, PartialEq, Eq, Structural)]
pub enum SkipReason {
    /// Its flag is not enabled.
    NotFlagged,
}

/// What a check found.
#[derive(Clone, Copy, Debug, PartialEq, Eq, Structural)]
pub enum AlertOutcome {
    /// Rain at `count` watched readings, the smallest of them `min`, their
    /// mean `avg` rounded down; both in thousandths of a millimetre.
    Raining { count: usize, min: u32, avg: u32 },
    /// No watched reading reports rain.
    NotRaining,
    /// The check was not evaluated.
    Skipped(SkipReason),
}

/// What an `AlertOutcome` says.
pub ghost enum Outcome {
    Raining { count: nat, min: nat, avg: nat },
    NotRaining,
    Skipped(SkipReason),
}

impl View for AlertOutcome {
    type V = Outcome;

    open spec fn view(&self) -> Outcome {
        match *self {
            AlertOutcome::Raining { count, min, avg } => Outcome::Raining {
                count: count as nat,
                min: min as nat,
                avg: avg as nat,
            },
            AlertOutcome::NotRaining => Outcome::NotRaining,
            AlertOutcome::Skipped(reason) => Outcome::Skipped(reason),
        }
    }
}

/// The test that a reading passes when it comes from one of the stations and
/// reports rain.
pub open spec fn watched_rain(stations: Seq<Seq<char>>) -> spec_fn(ReadingModel) -> bool {
    |r: ReadingModel| stations.contains(r.station_id) && is_rain(r)
}

/// The values of those readings that come from one of the stations and report
/// rain, in the order of the readings.
pub open spec fn rain_values(stations: Seq<Seq<char>>, readings: Seq<ReadingModel>) -> Seq<u32> {
    readings.filter(watched_rain(stations)).map_values(|r: ReadingModel| r.value)
}

/// The rain sample of a set of stations: the rain values among all readings of
/// the snapshot, batch after batch, with nothing merged or dropped.
pub open spec fn sample_of(stations: Seq<Seq<char>>, weather: Seq<ItemModel>) -> Seq<u32> {
    rain_values(stations, all_readings(weather))
}

/// What a check finds, given the enabled flags and the snapshot.
pub open spec fn outcome_of(
    check: CheckModel,
    flags: Set<Seq<char>>,
    weather: Seq<ItemModel>,
) -> Outcome {
    let sample = sample_of(check.stations, weather);
    if !flags.contains(check.flag) {
        Outcome::Skipped(SkipReason::NotFlagged)
    } else if sample.len() == 0 {
        Outcome::NotRaining
    } else {
        Outcome::Raining { count: sample.len(), min: least(sample) as nat, avg: mean(sample) }
    }
}

/// What each check of a configuration finds, in the configuration's order.
pub open spec fn outcomes_of(
    config: Seq<CheckModel>,
    flags: Set<Seq<char>>,
    weather: Seq<ItemModel>,
) -> Seq<Outcome> {
    config.map_values(|c: CheckModel| outcome_of(c, flags, weather))
}

/// What a list of outcomes says.
pub open spec fn outcome_views(outcomes: Seq<AlertOutcome>) -> Seq<Outcome> {
    outcomes.map_values(|o: AlertOutcome| o@)
}

/// The rain values of two runs of readings, one after the other, are the rain
/// values of the first followed by those of the second.
pub proof fn rain_values_concat(
    stations: Seq<Seq<char>>,
    a: Seq<ReadingModel>,
    b: Seq<ReadingModel>,
)
    ensures
        rain_values(stations, a + b) == rain_values(stations, a) + rain_values(stations, b),
{
    Seq::filter_distributes_over_add(a, b, watched_rain(stations));
    assert(rain_values(stations, a + b) =~= rain_values(stations, a) + rain_values(stations, b));
}

/// One more reading adds its value to the rain values when it passes the
/// test, and nothing otherwise.
pub proof fn rain_values_push(stations: Seq<Seq<char>>, a: Seq<ReadingModel>, r: ReadingModel)
    ensures
        rain_values(stations, a.push(r)) == if watched_rain(stations)(r) {
            rain_values(stations, a).push(r.value)
        } else {
            rain_values(stations, a)
        },
{
    a.lemma_filter_push(r, watched_rain(stations));
    if watched_rain(stations)(r) {
        assert(rain_values(stations, a.push(r)) =~= rain_values(stations, a).push(r.value));
    }
}

/// One more batch adds the rain values of its readings to the sample.
pub proof fn sample_of_push(stations: Seq<Seq<char>>, weather: Seq<ItemModel>, item: ItemModel)
    ensures
        sample_of(stations, weather.push(item)) == sample_of(stations, weather) + rain_values(
            stations,
            item.readings,
        ),
{
    let batches = weather.map_values(|i: ItemModel| i.readings);
    assert(weather.push(item).map_values(|i: ItemModel| i.readings) =~= batches.push(
        item.readings,
    ));
    batches.lemma_flatten_push(item.readings);
    rain_values_concat(stations, all_readings(weather), item.readings);
}

/// Whether one of the stations has this identifier.
fn watches(stations: &Vec<String>, id: &String) -> (r: bool)
    ensures
        r == stations@.map_values(|s: String| s@).contains(id@),
{
    let ghost names = stations@.map_values(|s: String| s@);
    let mut i: usize = 0;
    while i < stations.len()
        invariant
            i <= stations.len(),
            names == stations@.map_values(|s: String| s@),
            forall|j: int| 0 <= j < i ==> names[j] != id@,
        decreases stations.len() - i,
    {
        if stations[i] == *id {
            assert(names[i as int] == id@);
            return true;
        }
        i += 1;
    }
    false
}

/// The rain sample of a check: the values of all readings of the snapshot that
/// come from one of the check's stations and report rain.
pub fn rain_sample(check: &Check, weather: &Root) -> (sample: Vec<u32>)
    ensures
        sample@ == sample_of(check@.stations, weather@),
{
    let ghost stations = check@.stations;
    let mut sample: Vec<u32> = Vec::new();
    let mut i: usize = 0;
    assert(weather@.take(0) =~= Seq::<ItemModel>::empty());
    assert(all_readings(Seq::<ItemModel>::empty()) =~= Seq::<ReadingModel>::empty());
    assert(sample@ =~= sample_of(stations, weather@.take(0)));
    while i < weather.items.len()
        invariant
            i <= weather.items.len(),
            stations == check@.stations,
            sample@ == sample_of(stations, weather@.take(i as int)),
        decreases weather.items.len() - i,
    {
        let item = &weather.items[i];
        let ghost before = sample@;
        let mut j: usize = 0;
        assert(item@.readings.take(0) =~= Seq::<ReadingModel>::empty());
        assert(sample@ =~= before + rain_values(stations, item@.readings.take(0)));
        while j < item.readings.len()
            invariant
                j <= item.readings.len(),
                stations == check@.stations,
                sample@ == before + rain_values(stations, item@.readings.take(j as int)),
            decreases item.readings.len() - j,
        {
            let reading = &item.readings[j];
            proof {
                assert(item@.readings.take(j + 1) =~= item@.readings.take(j as int).push(
                    reading@,
                ));
                rain_values_push(stations, item@.readings.take(j as int), reading@);
            }
            if watches(&check.stations, &reading.station_id) && reading.is_rain() {
                sample.push(reading.value);
                assert(sample@ =~= before + rain_values(stations, item@.readings.take(j + 1)));
            }
            j += 1;
        }
        proof {
            assert(item@.readings.take(j as int) =~= item@.readings);
            assert(weather@.take(i + 1) =~= weather@.take(i as int).push(item@));
            sample_of_push(stations, weather@.take(i as int), item@);
        }
        i += 1;
    }
    assert(weather@.take(i as int) =~= weather@);
    sample
}

/// Evaluates one check: skipped when its flag is not enabled, and otherwise
/// rain with the statistics of its rain sample, or no rain when the sample is
/// empty.
pub fn evaluate_check(check: &Check, flags: &FlagSet, weather: &Root) -> (r: AlertOutcome)
    ensures
        r@ == outcome_of(check@, flags@, weather@),
{
    if !flags.contains(&check.flag) {
        return AlertOutcome::Skipped(SkipReason::NotFlagged);
    }
    let sample = rain_sample(check, weather);
    match summarize(&sample) {
        None => AlertOutcome::NotRaining,
        Some(stats) => AlertOutcome::Raining { count: stats.count, min: stats.min, avg: stats.avg },
    }
}

/// Evaluates every check of the configuration: one outcome per check, in the
/// configuration's order.
pub fn evaluate(config: &Config, flags: &FlagSet, weather: &Root) -> (r: Vec<AlertOutcome>)
    ensures
        outcome_views(r@) == outcomes_of(config@, flags@, weather@),
{
    let mut outcomes: Vec<AlertOutcome> = Vec::new();
    let mut i: usize = 0;
    while i < config.check.len()
        invariant
            i <= config.check.len(),
            outcomes.len() == i,
            forall|k: int|
                0 <= k < i ==> (#[trigger] outcomes[k])@ == outcome_of(
                    config@[k],
                    flags@,
                    weather@,
                ),
        decreases config.check.len() - i,
    {
        let outcome = evaluate_check(&config.check[i], flags, weather);
        outcomes.push(outcome);
        i += 1;
    }
    assert(outcome_views(outcomes@) =~= outcomes_of(config@, flags@, weather@));
    outcomes
}

} // verus!
