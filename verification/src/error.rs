//! What can go wrong while the sources are fetched.

use vstd::prelude::*;
use vstd::string::*;

verus! {

/// Why a source could not be fetched.
#[derive(Clone, Copy, Debug, PartialEq, Eq, Structural)]
pub enum FetchError {
    /// The request failed or its response could not be read.
    Transport,
    /// The response could not be decoded into the expected record.
    Decode,
}

/// Why the task that fetched a source did not finish.
#[derive(Clone, Copy, Debug, PartialEq, Eq, Structural)]
pub enum TaskError {
    Cancelled,
    Panicked,
}

/// One of the three sources.
#[derive(Clone, Copy, Debug, PartialEq, Eq, Structural)]
pub enum Source {
    Config,
    Flags,
    Weather,
}

/// What went wrong with a source.
#[derive(Clone, Copy, Debug, PartialEq, Eq, Structural)]
pub enum Cause {
    Fetch(FetchError),
    Task(TaskError),
}

/// A failure that ends the run before any check is evaluated.
#[derive(Clone, Copy, Debug, PartialEq, Eq, Structural)]
pub struct FatalError {
    /// The source that failed.
    pub source: Source,
    /// What went wrong with it.
    pub cause: Cause,
}

/// The name of a source in a report.
pub open spec fn source_name(source: Source) -> Seq<char> {
    match source {
        Source::Config => "config"@,
        Source::Flags => "flags"@,
        Source::Weather => "weather"@,
    }
}

/// What went wrong, in a report.
pub open spec fn cause_text(cause: Cause) -> Seq<char> {
    match cause {
        Cause::Fetch(FetchError::Transport) => "the request failed"@,
        Cause::Fetch(FetchError::Decode) => "the response could not be decoded"@,
        Cause::Task(TaskError::Cancelled) => "the task was cancelled"@,
        Cause::Task(TaskError::Panicked) => "the task panicked"@,
    }
}

/// The report of a fatal failure: which source failed, and why.
pub open spec fn fatal_text(failure: FatalError) -> Seq<char> {
    "Failed to read "@ + source_name(failure.source) + ": "@ + cause_text(failure.cause)
}

impl FatalError {
    /// A line for the log that names the source that failed and says why.
    pub fn describe(&self) -> (s: String)
        ensures
            s@ == fatal_text(*self),
    {
        let mut s = String::new();
        s.append("Failed to read ");
        s.append(
            match self.source {
                Source::Config => "config",
                Source::Flags => "flags",
                Source::Weather => "weather",
            },
        );
        s.append(": ");
        s.append(
            match self.cause {
                Cause::Fetch(FetchError::Transport) => "the request failed",
                Cause::Fetch(FetchError::Decode) => "the response could not be decoded",
                Cause::Task(TaskError::Cancelled) => "the task was cancelled",
                Cause::Task(TaskError::Panicked) => "the task panicked",
            },
        );
        assert(s@ =~= fatal_text(*self));
        s
    }
}

} // verus!
