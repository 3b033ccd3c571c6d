//! Rainfall alerting: which monitored locations have rain at their gauges,
//! how much, and what is to be done about it.
//!
//! Rainfall amounts are whole numbers of thousandths of a millimetre
//! throughout, so that every statistic is exact.

pub mod clock;
pub mod config;
pub mod error;
pub mod evaluate;
pub mod flags;
pub mod join;
pub mod laws;
pub mod message;
pub mod notify;
pub mod plan;
pub mod stats;
pub mod weather;

pub use clock::time_label;
pub use config::{accept, Check, Config};
pub use evaluate::{evaluate, evaluate_check, rain_sample, AlertOutcome, SkipReason};
pub use flags::{Feature, FlagSet};
pub use error::{Cause, FatalError, FetchError, Source, TaskError};
pub use join::{exit_code, join, run, run_at, settle, Sources};
pub use message::{alert_message, render_decimal, render_millimetres};
pub use notify::{delivery, NotifyError};
pub use plan::{action_for, plan, Action};
pub use stats::{summarize, RainStats};
pub use weather::{Item, Reading, Root, UNITS_PER_MM};
