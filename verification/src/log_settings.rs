//! What a logger writes, and how.
//!
//! A logger keeps a few settings: the least level that it writes, and
//! which parts of a line it writes. The settings change by instructions.
//! A line is made of a time, the name of the thread that speaks, the level
//! and the message, each only if its setting asks for it.

use vstd::prelude::*;
use crate::log_level::LogLevel;

verus! {

/// The settings of a logger.
#[derive(Clone, Copy, Debug, PartialEq, Eq, Structural)]
pub struct LogSettings {
    /// Whether the logger is at work.
    pub running: bool,
    /// Whether lines start with the time.
    pub print_timestamp: bool,
    /// Whether lines name the thread that speaks.
    pub print_thread_identifier: bool,
    /// Whether lines name the level of the message.
    pub print_level: bool,
    /// Whether lines hold the message.
    pub print_message: bool,
    /// The least level that is written.
    pub level_threshold: LogLevel,
}

/// An instruction that changes the settings of a logger.
#[derive(Clone, Copy, Debug, PartialEq, Eq, Structural)]
pub enum LogChange {
    SetLevel(LogLevel),
    SetPrintTimestamp(bool),
    SetPrintThreadIdentifier(bool),
    SetPrintLevel(bool),
    SetPrintMessage(bool),
    Shutdown,
}

impl LogSettings {
    /// The settings with which a logger starts: not yet at work, every
    /// part of a line written, every level written.
    pub fn new() -> (settings: LogSettings)
        ensures
            settings == (LogSettings {
                running: false,
                print_timestamp: true,
                print_thread_identifier: true,
                print_level: true,
                print_message: true,
                level_threshold: LogLevel::Debug,
            }),
    {
        LogSettings {
            running: false,
            print_timestamp: true,
            print_thread_identifier: true,
            print_level: true,
            print_message: true,
            level_threshold: LogLevel::Debug,
        }
    }

    /// The settings after an instruction.
    pub open spec fn changed(self, change: LogChange) -> LogSettings {
        match change {
            LogChange::SetLevel(level) => LogSettings { level_threshold: level, ..self },
            LogChange::SetPrintTimestamp(on) => LogSettings { print_timestamp: on, ..self },
            LogChange::SetPrintThreadIdentifier(on) => LogSettings {
                print_thread_identifier: on,
                ..self
            },
            LogChange::SetPrintLevel(on) => LogSettings { print_level: on, ..self },
            LogChange::SetPrintMessage(on) => LogSettings { print_message: on, ..self },
            LogChange::Shutdown => LogSettings { running: false, ..self },
        }
    }

    /// Follows an instruction.
    pub fn apply(&mut self, change: LogChange)
        ensures
            *final(self) == old(self).changed(change),
    {
        match change {
            LogChange::SetLevel(level) => {
                self.level_threshold = level;
            },
            LogChange::SetPrintTimestamp(on) => {
                self.print_timestamp = on;
            },
            LogChange::SetPrintThreadIdentifier(on) => {
                self.print_thread_identifier = on;
            },
            LogChange::SetPrintLevel(on) => {
                self.print_level = on;
            },
            LogChange::SetPrintMessage(on) => {
                self.print_message = on;
            },
            LogChange::Shutdown => {
                self.running = false;
            },
        }
    }

    /// Whether a message of the level is written.
    pub fn admits(&self, level: LogLevel) -> (r: bool)
        ensures
            r == (level.as_u8() >= self.level_threshold.as_u8()),
    {
        level.passes(self.level_threshold)
    }

    /// One part of a line: a label, the content in square brackets, and a blank.
    pub open spec fn part(label: Seq<char>, content: Seq<char>) -> Seq<char> {
        label + "["@ + content + "] "@
    }

    /// The line for a message: the time, the thread and the level, each
    /// as a part with its label, and the message after a colon; each only
    /// if the settings ask for it.
    pub open spec fn line(
        self,
        time: Seq<char>,
        thread: Seq<char>,
        level: Seq<char>,
        message: Seq<char>,
    ) -> Seq<char> {
        (if self.print_timestamp {
            LogSettings::part("Time"@, time)
        } else {
            Seq::<char>::empty()
        }) + (if self.print_thread_identifier {
            LogSettings::part("ThreadId"@, thread)
        } else {
            Seq::<char>::empty()
        }) + (if self.print_level {
            LogSettings::part("Level"@, level)
        } else {
            Seq::<char>::empty()
        }) + (if self.print_message {
            ":"@ + message
        } else {
            Seq::<char>::empty()
        })
    }

    /// Makes the line for a message, of the given time and the given name
    /// of the thread that speaks.
    #[verifier::rlimit(30)]
    pub fn compose_message(&self, time: &str, thread: &str, level: LogLevel, message: &str) -> (line:
        String)
        ensures
            line@ == self.line(time@, thread@, level.name()@, message@),
    {
        let mut composed_message = String::new();
        if self.print_timestamp {
            composed_message.append("Time");
            composed_message.append("[");
            composed_message.append(time);
            composed_message.append("] ");
        }
        if self.print_thread_identifier {
            composed_message.append("ThreadId");
            composed_message.append("[");
            composed_message.append(thread);
            composed_message.append("] ");
        }
        if self.print_level {
            composed_message.append("Level");
            composed_message.append("[");
            composed_message.append(level.name());
            composed_message.append("] ");
        }
        if self.print_message {
            composed_message.append(":");
            composed_message.append(message);
        }
        assert(composed_message@ =~= self.line(time@, thread@, level.name()@, message@));
        composed_message
    }
}

} // verus!
