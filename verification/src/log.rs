//! The log-level vocabulary shared with the connectivity engine.
//!
//! The engine numbers its levels `0` through `6`: verbose, debug, info,
//! warn, error, fatal, none. The host application filters by the six levels
//! below. The two functions here are the exact translation between the two,
//! used by the process-wide logging bridge that routes engine log lines to
//! the host's sink.

use vstd::prelude::*;

verus! {

/// A log level filter of the host application, from most quiet to most
/// verbose.
#[derive(Clone, Copy, Debug, PartialEq, Eq, Structural)]
pub enum LogLevel {
    Off,
    Error,
    Warn,
    Info,
    Debug,
    Trace,
}

/// The engine's numeric code for a filter level.
pub open spec fn spec_engine_code(level: LogLevel) -> u32 {
    match level {
        LogLevel::Off => 6u32,
        LogLevel::Error => 4u32,
        LogLevel::Warn => 3u32,
        LogLevel::Info => 2u32,
        LogLevel::Debug => 1u32,
        LogLevel::Trace => 0u32,
    }
}

/// The level at which an engine log line carrying the given code is
/// forwarded to the host sink. The engine's fatal code `5` is forwarded as
/// `Error`; its code `6` marks a line that is never forwarded, answered with
/// `Off`. An unknown code yields `None`.
pub open spec fn spec_level_of_engine_code(code: u32) -> Option<LogLevel> {
    match code {
        0u32 => Some(LogLevel::Trace),
        1u32 => Some(LogLevel::Debug),
        2u32 => Some(LogLevel::Info),
        3u32 => Some(LogLevel::Warn),
        4u32 => Some(LogLevel::Error),
        5u32 => Some(LogLevel::Error),
        6u32 => Some(LogLevel::Off),
        _ => None,
    }
}

impl LogLevel {
    /// The engine's numeric code for this filter level.
    pub fn engine_code(self) -> (r: u32)
        ensures
            r == spec_engine_code(self),
    {
        match self {
            LogLevel::Off => 6,
            LogLevel::Error => 4,
            LogLevel::Warn => 3,
            LogLevel::Info => 2,
            LogLevel::Debug => 1,
            LogLevel::Trace => 0,
        }
    }

    /// Classifies an engine log line's level code. The engine never emits an
    /// unknown code, so the bridge treats `None` as a fatal fault.
    pub fn from_engine_code(code: u32) -> (r: Option<LogLevel>)
        ensures
            r == spec_level_of_engine_code(code),
    {
        match code {
            0u32 => Some(LogLevel::Trace),
            1u32 => Some(LogLevel::Debug),
            2u32 => Some(LogLevel::Info),
            3u32 => Some(LogLevel::Warn),
            4u32 => Some(LogLevel::Error),
            5u32 => Some(LogLevel::Error),
            6u32 => Some(LogLevel::Off),
            _ => None,
        }
    }
}

/// A filter level survives the round trip through the engine's numbering:
/// classifying its own code gives the level back.
pub proof fn lemma_log_level_round_trip(level: LogLevel)
    ensures
        spec_level_of_engine_code(spec_engine_code(level)) == Some(level),
{
}

} // verus!
