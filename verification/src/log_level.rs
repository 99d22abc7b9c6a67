//! How much a message matters.

use vstd::prelude::*;

verus! {

/// The weight of a message, from least to most.
#[derive(Clone, Copy, Debug, PartialEq, Eq, PartialOrd, Ord, Structural)]
pub enum LogLevel {
    Debug,
    Info,
    Warning,
    Error,
}

impl LogLevel {
    /// The level's number, 0 for the least.
    #[verifier::allow_in_spec]
    pub fn as_u8(&self) -> u8
        returns
            (match self {
                LogLevel::Debug => 0u8,
                LogLevel::Info => 1u8,
                LogLevel::Warning => 2u8,
                LogLevel::Error => 3u8,
            }),
    {
        match self {
            LogLevel::Debug => 0,
            LogLevel::Info => 1,
            LogLevel::Warning => 2,
            LogLevel::Error => 3,
        }
    }

    /// The level of a number: the numbers go round in fours.
    pub fn from_u8(val: u8) -> (level: LogLevel)
        ensures
            level.as_u8() == val % 4,
    {
        match val % 4 {
            0 => LogLevel::Debug,
            1 => LogLevel::Info,
            2 => LogLevel::Warning,
            _ => LogLevel::Error,
        }
    }

    /// Whether a message of this level passes a threshold: it does if it
    /// weighs no less.
    pub fn passes(&self, threshold: LogLevel) -> (r: bool)
        ensures
            r == (self.as_u8() >= threshold.as_u8()),
    {
        self.as_u8() >= threshold.as_u8()
    }

    /// The level's name.
    #[verifier::allow_in_spec]
    pub fn name(&self) -> &'static str
        returns
            (match self {
                LogLevel::Debug => "Debug",
                LogLevel::Info => "Info",
                LogLevel::Warning => "Warning",
                LogLevel::Error => "Error",
            }),
    {
        match self {
            LogLevel::Debug => "Debug",
            LogLevel::Info => "Info",
            LogLevel::Warning => "Warning",
            LogLevel::Error => "Error",
        }
    }
}

} // verus!
