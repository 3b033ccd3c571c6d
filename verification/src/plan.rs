//! What is to be done about each check once it has been evaluated.

use vstd::prelude::*;
use crate::config::{Check, CheckModel, Config};
use crate::evaluate::{evaluate_check, outcome_of, AlertOutcome, Outcome};
use crate::flags::FlagSet;
use crate::message::{alert_message, alert_text};
use crate::weather::{ItemModel, Root};

verus! {

/// What is to be done about one check.
#[derive(Clone, Debug, PartialEq, Eq)]
pub enum Action {
    /// Send this message to the notification service.
    Notify { message: String },
    /// Record that it is not raining at this location.
    ReportNoRain { location: String },
    /// Record that the check for this location was skipped.
    ReportSkipped { location: String },
}

/// What an `Action` says.
pub ghost enum ActionModel {
    Notify { message: Seq<char> },
    ReportNoRain { location: Seq<char> },
    ReportSkipped { location: Seq<char> },
}

impl View for Action {
    type V = ActionModel;

    open spec fn view(&self) -> ActionModel {
        match *self {
            Action::Notify { message } => ActionModel::Notify { message: message@ },
            Action::ReportNoRain { location } => ActionModel::ReportNoRain { location: location@ },
            Action::ReportSkipped { location } => ActionModel::ReportSkipped {
                location: location@,
            },
        }
    }
}

/// What a list of actions says.
pub open spec fn action_views(actions: Seq<Action>) -> Seq<ActionModel> {
    actions.map_values(|a: Action| a@)
}

/// The action that an outcome calls for: a notification, worded for the
/// check's location and the given time, when it rains, and a record otherwise.
pub open spec fn action_of(check: CheckModel, outcome: Outcome, time: Seq<char>) -> ActionModel {
    match outcome {
        Outcome::Raining { count, min, avg } => ActionModel::Notify {
            message: alert_text(check.location, count, time, min, avg),
        },
        Outcome::NotRaining => ActionModel::ReportNoRain { location: check.location },
        Outcome::Skipped(_) => ActionModel::ReportSkipped { location: check.location },
    }
}

/// The actions for a whole configuration: one per check, in the
/// configuration's order, each for what that check finds.
pub open spec fn plan_of(
    config: Seq<CheckModel>,
    flags: Set<Seq<char>>,
    weather: Seq<ItemModel>,
    time: Seq<char>,
) -> Seq<ActionModel> {
    config.map_values(|c: CheckModel| action_of(c, outcome_of(c, flags, weather), time))
}

/// The action that an outcome of a check calls for.
pub fn action_for(check: &Check, outcome: AlertOutcome, time_label: &str) -> (r: Action)
    ensures
        r@ == action_of(check@, outcome@, time_label@),
{
    match outcome {
        AlertOutcome::Raining { count, min, avg } => Action::Notify {
            message: alert_message(check.location.as_str(), count, time_label, min, avg),
        },
        AlertOutcome::NotRaining => Action::ReportNoRain { location: check.location.clone() },
        AlertOutcome::Skipped(_) => Action::ReportSkipped { location: check.location.clone() },
    }
}

/// Evaluates every check and says what is to be done about each, in the
/// configuration's order.
pub fn plan(config: &Config, flags: &FlagSet, weather: &Root, time_label: &str) -> (r: Vec<Action>)
    ensures
        action_views(r@) == plan_of(config@, flags@, weather@, time_label@),
{
    let mut actions: Vec<Action> = Vec::new();
    let mut i: usize = 0;
    while i < config.check.len()
        invariant
            i <= config.check.len(),
            actions.len() == i,
            forall|k: int|
                0 <= k < i ==> (#[trigger] actions[k])@ == action_of(
                    config@[k],
                    outcome_of(config@[k], flags@, weather@),
                    time_label@,
                ),
        decreases config.check.len() - i,
    {
        let check = &config.check[i];
        let outcome = evaluate_check(check, flags, weather);
        actions.push(action_for(check, outcome, time_label));
        i += 1;
    }
    assert(action_views(actions@) =~= plan_of(config@, flags@, weather@, time_label@));
    actions
}

} // verus!
