//! How much a program logs, counted by its `-v` flags.

use vstd::prelude::*;

verus! {

/// The log levels, from silent to everything.
#[derive(Debug, Clone, Copy, PartialEq, Eq, Structural, Hash)]
pub enum LogLevel {
    Off,
    Error,
    Warn,
    Info,
    Debug,
    Trace,
}

/// The level that `verbosity` flags select: none is silent, each one more
/// lets a finer level through, and five or more let everything through.
pub open spec fn level_for(verbosity: u8) -> LogLevel {
    if verbosity == 0 {
        LogLevel::Off
    } else if verbosity == 1 {
        LogLevel::Error
    } else if verbosity == 2 {
        LogLevel::Warn
    } else if verbosity == 3 {
        LogLevel::Info
    } else if verbosity == 4 {
        LogLevel::Debug
    } else {
        LogLevel::Trace
    }
}

pub fn select_log_level_filter(verbosity: u8) -> (r: LogLevel)
    ensures
        r == level_for(verbosity),
{
    match verbosity {
        0 => LogLevel::Off,
        1 => LogLevel::Error,
        2 => LogLevel::Warn,
        3 => LogLevel::Info,
        4 => LogLevel::Debug,
        _ => LogLevel::Trace,
    }
}

/// The number of times `-v` was given.
#[derive(Debug, Clone, PartialEq, Eq, Structural)]
pub struct Verbosity {
    verbose: u8,
}

impl View for Verbosity {
    type V = u8;

    closed spec fn view(&self) -> u8 {
        self.verbose
    }
}

impl Verbosity {
    pub fn new(verbose: u8) -> (r: Self)
        ensures
            r@ == verbose,
    {
        Self { verbose }
    }

    pub fn verbose(&self) -> (r: u8)
        ensures
            r == self@,
    {
        self.verbose
    }

    /// The level that the logger is to be set to.
    pub fn log_level(&self) -> (r: LogLevel)
        ensures
            r == level_for(self@),
    {
        select_log_level_filter(self.verbose)
    }
}

} // verus!
