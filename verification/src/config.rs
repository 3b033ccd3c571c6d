//! The check configuration: which gauges to watch for which location.

use vstd::prelude::*;
use crate::error::FetchError;

verus! {

/// One monitored location with its watched gauges and its gating flag.
#[derive(Clone, Debug, PartialEq, Eq)]
pub struct Check {
    /// The station identifiers to watch; may repeat and may be empty.
    pub stations: Vec<String>,
    /// The flag that must be enabled for the check to be evaluated.
    pub flag: String,
    /// The location's label, as shown to people.
    pub location: String,
}

/// What a `Check` says.
pub ghost struct CheckModel {
    pub stations: Seq<Seq<char>>,
    pub flag: Seq<char>,
    pub location: Seq<char>,
}

impl View for Check {
    type V = CheckModel;

    open spec fn view(&self) -> CheckModel {
        CheckModel {
            stations: self.stations@.map_values(|s: String| s@),
            flag: self.flag@,
            location: self.location@,
        }
    }
}

/// The checks, in the order in which they are evaluated and reported.
#[derive(Clone, Debug, PartialEq, Eq)]
pub struct Config {
    pub check: Vec<Check>,
}

impl View for Config {
    type V = Seq<CheckModel>;

    open spec fn view(&self) -> Seq<CheckModel> {
        self.check@.map_values(|c: Check| c@)
    }
}

/// Whether every check names a flag.
pub open spec fn flags_named(config: Seq<CheckModel>) -> bool {
    forall|i: int| 0 <= i < config.len() ==> (#[trigger] config[i]).flag.len() > 0
}

/// Whether check `i` names no flag while every check before it names one.
pub open spec fn is_first_unnamed(config: Seq<CheckModel>, i: int) -> bool {
    &&& 0 <= i < config.len()
    &&& config[i].flag.len() == 0
    &&& flags_named(config.take(i))
}

impl Config {
    /// The position of the first check whose flag name is empty.
    ///
    /// A check without a flag name has no defined gating, so a configuration
    /// is to be turned away when this returns a position.
    pub fn first_blank_flag(&self) -> (r: Option<usize>)
        ensures
            r is None <==> flags_named(self@),
            r matches Some(i) ==> is_first_unnamed(self@, i as int),
    {
        let mut i: usize = 0;
        while i < self.check.len()
            invariant
                i <= self.check.len(),
                flags_named(self@.take(i as int)),
            decreases self.check.len() - i,
        {
            if self.check[i].flag.as_str().is_empty() {
                assert(self@[i as int].flag.len() == 0);
                return Some(i);
            }
            assert forall|j: int| 0 <= j < i + 1 implies (#[trigger] self@.take(
                i + 1,
            )[j]).flag.len() > 0 by {
                if j < i {
                    assert(self@.take(i as int)[j] == self@[j]);
                }
            }
            i += 1;
        }
        assert(self@.take(i as int) =~= self@);
        None
    }
}

/// Accepts a configuration that was decoded: one in which a check names no
/// flag is turned away as not decodable, any other is handed back as it is.
pub fn accept(config: Config) -> (r: Result<Config, FetchError>)
    ensures
        flags_named(config@) ==> r == Ok::<Config, FetchError>(config),
        !flags_named(config@) ==> r == Err::<Config, FetchError>(FetchError::Decode),
{
    match config.first_blank_flag() {
        None => Ok(config),
        Some(_) => Err(FetchError::Decode),
    }
}

} // verus!
