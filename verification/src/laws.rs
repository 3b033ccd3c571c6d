//! What holds of every evaluation and of every run.

use vstd::prelude::*;
use crate::config::{Config, CheckModel};
use crate::evaluate::{
    outcome_of, outcome_views, outcomes_of, sample_of, AlertOutcome, Outcome, SkipReason,
};
use crate::flags::FlagSet;
use crate::error::{FetchError, Source, TaskError};
use crate::join::{failure_of, first_failure};
use crate::plan::{action_of, plan_of};
use crate::stats::{least_is_minimum, mean_is_average, total};
use crate::weather::{all_readings, ItemModel, ReadingModel, Root};

verus! {

/// A check whose flag is not enabled is skipped, whatever the weather, and no
/// notification is sent for it.
pub proof fn unflagged_check_is_skipped(
    check: CheckModel,
    flags: Set<Seq<char>>,
    weather: Seq<ItemModel>,
    time: Seq<char>,
)
    requires
        !flags.contains(check.flag),
    ensures
        outcome_of(check, flags, weather) == Outcome::Skipped(SkipReason::NotFlagged),
        !(action_of(check, outcome_of(check, flags, weather), time) is Notify),
{
}

/// A notification is sent for a check exactly when the check finds rain, and
/// a check finds rain exactly when its flag is enabled and its rain sample is
/// not empty.
pub proof fn notification_only_for_rain(
    check: CheckModel,
    flags: Set<Seq<char>>,
    weather: Seq<ItemModel>,
    time: Seq<char>,
)
    ensures
        action_of(check, outcome_of(check, flags, weather), time) is Notify <==> outcome_of(
            check,
            flags,
            weather,
        ) is Raining,
        outcome_of(check, flags, weather) is Raining <==> flags.contains(check.flag) && sample_of(
            check.stations,
            weather,
        ).len() > 0,
{
}

/// For a check whose flag is enabled and whose rain sample is not empty, the
/// outcome is rain; its count is the size of the sample; its minimum occurs
/// in the sample and no value of the sample is smaller; its mean is the
/// sample's sum divided by the count, rounded down to a whole unit.
pub proof fn rain_statistics_are_true(
    check: CheckModel,
    flags: Set<Seq<char>>,
    weather: Seq<ItemModel>,
)
    requires
        flags.contains(check.flag),
        sample_of(check.stations, weather).len() > 0,
    ensures
        ({
            let sample = sample_of(check.stations, weather);
            let outcome = outcome_of(check, flags, weather);
            &&& outcome is Raining
            &&& outcome->count == sample.len()
            &&& sample.contains(outcome->min as u32)
            &&& forall|i: int| 0 <= i < sample.len() ==> outcome->min <= #[trigger] sample[i]
            &&& outcome->avg * outcome->count <= total(sample) < (outcome->avg + 1)
                * outcome->count
            &&& outcome->min <= outcome->avg
        }),
{
    let sample = sample_of(check.stations, weather);
    least_is_minimum(sample);
    mean_is_average(sample);
}

/// For a check whose flag is enabled and whose rain sample is empty, the
/// outcome is no rain.
pub proof fn empty_sample_is_no_rain(
    check: CheckModel,
    flags: Set<Seq<char>>,
    weather: Seq<ItemModel>,
)
    requires
        flags.contains(check.flag),
        sample_of(check.stations, weather).len() == 0,
    ensures
        outcome_of(check, flags, weather) == Outcome::NotRaining,
{
}

/// The rain sample holds exactly the values of the readings that come from a
/// watched station and report rain: every value of the sample is positive,
/// and the sample is empty exactly when no reading of the snapshot is such a
/// reading.
pub proof fn sample_holds_watched_rain(stations: Seq<Seq<char>>, weather: Seq<ItemModel>)
    ensures
        forall|i: int|
            0 <= i < sample_of(stations, weather).len() ==> (#[trigger] sample_of(
                stations,
                weather,
            )[i]) > 0,
        sample_of(stations, weather).len() == 0 <==> forall|j: int|
            0 <= j < all_readings(weather).len() ==> !(stations.contains(
                (#[trigger] all_readings(weather)[j]).station_id,
            ) && all_readings(weather)[j].value > 0),
{
    let readings = all_readings(weather);
    let test = crate::evaluate::watched_rain(stations);
    let kept = readings.filter(test);
    broadcast use vstd::seq_lib::group_filter_ensures;

    assert forall|i: int| 0 <= i < sample_of(stations, weather).len() implies (
    #[trigger] sample_of(stations, weather)[i]) > 0 by {
        assert(test(kept[i]));
    }
    if kept.len() == 0 {
        assert forall|j: int| 0 <= j < readings.len() implies !test(#[trigger] readings[j]) by {
            if test(readings[j]) {
                assert(kept.contains(readings[j]));
            }
        }
    } else {
        assert(kept.contains(kept[0]));
        readings.lemma_filter_contains_rev(test, kept[0]);
        assert(test(kept[0]));
        let j = choose|j: int| 0 <= j < readings.len() && readings[j] == kept[0];
        assert(test(readings[j]));
    }
}

/// A check that watches no station finds no rain.
pub proof fn no_station_is_no_rain(
    check: CheckModel,
    flags: Set<Seq<char>>,
    weather: Seq<ItemModel>,
)
    requires
        flags.contains(check.flag),
        check.stations.len() == 0,
    ensures
        outcome_of(check, flags, weather) == Outcome::NotRaining,
{
    sample_holds_watched_rain(check.stations, weather);
}

/// In a snapshot without batches no check finds rain.
pub proof fn no_batch_is_no_rain(check: CheckModel, flags: Set<Seq<char>>)
    requires
        flags.contains(check.flag),
    ensures
        outcome_of(check, flags, Seq::<ItemModel>::empty()) == Outcome::NotRaining,
{
    assert(all_readings(Seq::<ItemModel>::empty()) =~= Seq::<ReadingModel>::empty());
    sample_holds_watched_rain(check.stations, Seq::<ItemModel>::empty());
}

/// Evaluation has no hidden state: whatever two evaluations of the same
/// configuration, flags and snapshot return, they return the same outcomes.
pub proof fn evaluation_repeats(
    config: Seq<CheckModel>,
    flags: Set<Seq<char>>,
    weather: Seq<ItemModel>,
    first: Seq<AlertOutcome>,
    second: Seq<AlertOutcome>,
)
    requires
        outcome_views(first) == outcomes_of(config, flags, weather),
        outcome_views(second) == outcomes_of(config, flags, weather),
    ensures
        first == second,
{
    assert(first.len() == outcome_views(first).len());
    assert(second.len() == outcome_views(second).len());
    assert forall|i: int| 0 <= i < first.len() implies first[i] == second[i] by {
        assert(first[i]@ == outcome_views(first)[i]);
        assert(second[i]@ == outcome_views(second)[i]);
    }
    assert(first =~= second);
}

/// There is one outcome and one action per check, and the outcome and the
/// action at a position are those of the check at that position.
pub proof fn outcomes_follow_checks(
    config: Seq<CheckModel>,
    flags: Set<Seq<char>>,
    weather: Seq<ItemModel>,
    time: Seq<char>,
)
    ensures
        outcomes_of(config, flags, weather).len() == config.len(),
        plan_of(config, flags, weather, time).len() == config.len(),
        forall|i: int|
            0 <= i < config.len() ==> #[trigger] outcomes_of(config, flags, weather)[i]
                == outcome_of(config[i], flags, weather),
        forall|i: int|
            0 <= i < config.len() ==> #[trigger] plan_of(config, flags, weather, time)[i]
                == action_of(config[i], outcomes_of(config, flags, weather)[i], time),
{
}

/// What a check finds does not depend on the other checks: the outcome at a
/// position stays when any other check is replaced.
pub proof fn checks_are_independent(
    config: Seq<CheckModel>,
    flags: Set<Seq<char>>,
    weather: Seq<ItemModel>,
    i: int,
    j: int,
    other: CheckModel,
)
    requires
        0 <= i < config.len(),
        0 <= j < config.len(),
        i != j,
    ensures
        outcomes_of(config.update(j, other), flags, weather)[i] == outcomes_of(
            config,
            flags,
            weather,
        )[i],
{
}

/// A failure is reported exactly when one of the three sources failed, and
/// the failure reported is that of a source that failed, with its cause.
pub proof fn failure_names_failed_source(
    config: Result<Result<Config, FetchError>, TaskError>,
    flags: Result<Result<FlagSet, FetchError>, TaskError>,
    weather: Result<Result<Root, FetchError>, TaskError>,
)
    ensures
        first_failure(config, flags, weather) is None <==> (config matches Ok(Ok(_)) && flags
            matches Ok(Ok(_)) && weather matches Ok(Ok(_))),
        first_failure(config, flags, weather) matches Some(e) ==> {
            ||| e.source == Source::Config && failure_of(Source::Config, config) == Some(e)
            ||| e.source == Source::Flags && failure_of(Source::Flags, flags) == Some(e)
            ||| e.source == Source::Weather && failure_of(Source::Weather, weather) == Some(e)
        },
{
}

} // verus!
