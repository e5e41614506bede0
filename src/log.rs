//! The engine's verbosity, as an ordered level and as its integer code.
use vstd::prelude::*;

verus! {

/// How much the decoding engine reports, from nothing to everything.
#[derive(Clone, Copy, Debug, PartialEq, Eq, Structural, PartialOrd, Ord)]
pub enum LogLevel {
    Quiet,
    Error,
    Info,
    Debug,
}

/// The engine's integer code for `level`.
pub open spec fn level_code(level: LogLevel) -> int {
    match level {
        LogLevel::Quiet => -1,
        LogLevel::Error => 0,
        LogLevel::Info => 1,
        LogLevel::Debug => 2,
    }
}

/// The level that the engine's code `code` stands for; a code outside the
/// known scale is read as the most verbose level.
pub open spec fn level_of_code(code: int) -> LogLevel {
    if code == -1 {
        LogLevel::Quiet
    } else if code == 0 {
        LogLevel::Error
    } else if code == 1 {
        LogLevel::Info
    } else {
        LogLevel::Debug
    }
}

impl LogLevel {
    pub fn to_int(&self) -> (r: i32)
        ensures
            r == level_code(*self),
    {
        match *self {
            LogLevel::Quiet => -1,
            LogLevel::Error => 0,
            LogLevel::Info => 1,
            LogLevel::Debug => 2,
        }
    }

    pub fn from_int(code: i32) -> (r: LogLevel)
        ensures
            r == level_of_code(code as int),
    {
        match code {
            -1 => LogLevel::Quiet,
            0 => LogLevel::Error,
            1 => LogLevel::Info,
            2 => LogLevel::Debug,
            _ => LogLevel::Debug,
        }
    }
}

/// Reading back the code of a level gives that level.
pub proof fn law_level_round_trip(level: LogLevel)
    ensures
        level_of_code(level_code(level)) == level,
{
}

/// A code is the code of some level exactly when it lies in `-1..=2`, and then
/// reading it and encoding the level gives the code back.
pub proof fn law_code_round_trip(code: int)
    ensures
        -1 <= code <= 2 <==> level_code(level_of_code(code)) == code,
{
}

} // verus!
