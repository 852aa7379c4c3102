//! Log levels as a foreign caller passes them.
use vstd::prelude::*;

verus! {

/// The level of a log message.
#[derive(Clone, Copy, Debug, PartialEq, Eq, Structural)]
pub enum LogLevel {
    Off,
    Error,
    Warn,
    Info,
    Debug,
    Trace,
}

/// The numeric value of each level across the boundary.
pub open spec fn level_value(level: LogLevel) -> u32 {
    match level {
        LogLevel::Off => 0x00,
        LogLevel::Error => 0x01,
        LogLevel::Warn => 0x02,
        LogLevel::Info => 0x04,
        LogLevel::Debug => 0x08,
        LogLevel::Trace => 0x0a,
    }
}

impl LogLevel {
    /// The numeric value of this level.
    pub fn value(&self) -> (r: u32)
        ensures
            r == level_value(*self),
    {
        match self {
            LogLevel::Off => 0x00,
            LogLevel::Error => 0x01,
            LogLevel::Warn => 0x02,
            LogLevel::Info => 0x04,
            LogLevel::Debug => 0x08,
            LogLevel::Trace => 0x0a,
        }
    }

    /// The level with numeric value `value`, if there is one.
    pub fn from_value(value: u32) -> (r: Option<LogLevel>)
        ensures
            match r {
                Some(l) => level_value(l) == value,
                None => forall|l: LogLevel| level_value(l) != value,
            },
    {
        if value == 0x00 {
            Some(LogLevel::Off)
        } else if value == 0x01 {
            Some(LogLevel::Error)
        } else if value == 0x02 {
            Some(LogLevel::Warn)
        } else if value == 0x04 {
            Some(LogLevel::Info)
        } else if value == 0x08 {
            Some(LogLevel::Debug)
        } else if value == 0x0a {
            Some(LogLevel::Trace)
        } else {
            None
        }
    }

    /// Whether a message at this level is written at all.
    pub fn is_enabled(&self) -> (r: bool)
        ensures
            r == (*self != LogLevel::Off),
    {
        match self {
            LogLevel::Off => false,
            _ => true,
        }
    }
}

} // verus!
