//! Joining the three sources, and the run that follows.

use vstd::prelude::*;
use crate::clock::{is_time_label, time_label};
use crate::config::Config;
use crate::error::{Cause, FatalError, FetchError, Source, TaskError};
use crate::flags::FlagSet;
use crate::plan::{action_views, plan, plan_of, Action};
use crate::weather::Root;

verus! {

/// The three sources, all fetched.
#[derive(Clone, Debug)]
pub struct Sources {
    pub config: Config,
    pub flags: FlagSet,
    pub weather: Root,
}

/// The failure, if any, that the result of a source's fetch task stands for.
pub open spec fn failure_of<T>(
    source: Source,
    fetched: Result<Result<T, FetchError>, TaskError>,
) -> Option<FatalError> {
    match fetched {
        Ok(Ok(_)) => None,
        Ok(Err(e)) => Some(FatalError { source, cause: Cause::Fetch(e) }),
        Err(e) => Some(FatalError { source, cause: Cause::Task(e) }),
    }
}

/// The failure that is reported for the three results: that of the
/// configuration if it failed, else that of the flags, else that of the
/// weather; none if all three were fetched.
pub open spec fn first_failure(
    config: Result<Result<Config, FetchError>, TaskError>,
    flags: Result<Result<FlagSet, FetchError>, TaskError>,
    weather: Result<Result<Root, FetchError>, TaskError>,
) -> Option<FatalError> {
    if failure_of(Source::Config, config) is Some {
        failure_of(Source::Config, config)
    } else if failure_of(Source::Flags, flags) is Some {
        failure_of(Source::Flags, flags)
    } else {
        failure_of(Source::Weather, weather)
    }
}

/// The value that a fetch task brought, or the failure that it stands for.
pub fn settle<T>(source: Source, fetched: Result<Result<T, FetchError>, TaskError>) -> (r: Result<
    T,
    FatalError,
>)
    ensures
        match failure_of(source, fetched) {
            Some(e) => r == Err::<T, FatalError>(e),
            None => r == Ok::<T, FatalError>(fetched->Ok_0->Ok_0),
        },
{
    match fetched {
        Ok(Ok(value)) => Ok(value),
        Ok(Err(e)) => Err(FatalError { source, cause: Cause::Fetch(e) }),
        Err(e) => Err(FatalError { source, cause: Cause::Task(e) }),
    }
}

/// Joins the results of the three fetch tasks: all three values when every
/// task brought one, and a failure otherwise.
///
/// Which failure is reported when several sources failed is an arbitrary
/// choice that nothing should depend on; it is the first in the order
/// configuration, flags, weather.
pub fn join(
    config: Result<Result<Config, FetchError>, TaskError>,
    flags: Result<Result<FlagSet, FetchError>, TaskError>,
    weather: Result<Result<Root, FetchError>, TaskError>,
) -> (r: Result<Sources, FatalError>)
    ensures
        match first_failure(config, flags, weather) {
            Some(e) => r == Err::<Sources, FatalError>(e),
            None => r == Ok::<Sources, FatalError>(
                Sources {
                    config: config->Ok_0->Ok_0,
                    flags: flags->Ok_0->Ok_0,
                    weather: weather->Ok_0->Ok_0,
                },
            ),
        },
{
    let config = match settle(Source::Config, config) {
        Ok(value) => value,
        Err(e) => { return Err(e); },
    };
    let flags = match settle(Source::Flags, flags) {
        Ok(value) => value,
        Err(e) => { return Err(e); },
    };
    let weather = match settle(Source::Weather, weather) {
        Ok(value) => value,
        Err(e) => { return Err(e); },
    };
    Ok(Sources { config, flags, weather })
}

/// The whole run for a given time label: the failure when a source failed,
/// in which case no check is evaluated, and otherwise the action for every
/// check.
pub fn run_at(
    config: Result<Result<Config, FetchError>, TaskError>,
    flags: Result<Result<FlagSet, FetchError>, TaskError>,
    weather: Result<Result<Root, FetchError>, TaskError>,
    time_label: &str,
) -> (r: Result<Vec<Action>, FatalError>)
    ensures
        match first_failure(config, flags, weather) {
            Some(e) => r == Err::<Vec<Action>, FatalError>(e),
            None => r is Ok && action_views(r->Ok_0@) == plan_of(
                config->Ok_0->Ok_0@,
                flags->Ok_0->Ok_0@,
                weather->Ok_0->Ok_0@,
                time_label@,
            ),
        },
{
    match join(config, flags, weather) {
        Err(e) => Err(e),
        Ok(sources) => Ok(plan(&sources.config, &sources.flags, &sources.weather, time_label)),
    }
}

/// The whole run at the current local time, which is read only when all three
/// sources were fetched: as `run_at`, for a time label that the clock gave.
pub fn run(
    config: Result<Result<Config, FetchError>, TaskError>,
    flags: Result<Result<FlagSet, FetchError>, TaskError>,
    weather: Result<Result<Root, FetchError>, TaskError>,
) -> (r: Result<Vec<Action>, FatalError>)
    ensures
        match first_failure(config, flags, weather) {
            Some(e) => r == Err::<Vec<Action>, FatalError>(e),
            None => r is Ok && exists|time: Seq<char>|
                is_time_label(time) && action_views(r->Ok_0@) == #[trigger] plan_of(
                    config->Ok_0->Ok_0@,
                    flags->Ok_0->Ok_0@,
                    weather->Ok_0->Ok_0@,
                    time,
                ),
        },
{
    match join(config, flags, weather) {
        Err(e) => Err(e),
        Ok(sources) => {
            let label = time_label();
            Ok(plan(&sources.config, &sources.flags, &sources.weather, label.as_str()))
        },
    }
}

/// The status with which the process ends: zero after a run that evaluated
/// its checks, whatever they found, and one after a fatal failure.
pub fn exit_code(outcome: &Result<Vec<Action>, FatalError>) -> (code: i32)
    ensures
        code == if outcome is Ok { 0i32 } else { 1i32 },
{
    match outcome {
        Ok(_) => 0,
        Err(_) => 1,
    }
}

} // verus!
