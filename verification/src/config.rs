//! The outcome of reading a configuration.

use vstd::prelude::*;
use crate::text::{same_word, same_word_as};

verus! {

/// How the reading of a configuration went.
pub enum ConfigResult {
    /// Every line was understood.
    Loaded,
    /// The configuration was not text.
    InvalidUtf8(String),
    /// Some lines were not understood: the messages, in the order of the lines.
    ParsingError(Vec<String>),
    /// There was no configuration to read.
    NoConfigFile(String),
}

impl ConfigResult {
    /// The messages about lines that were not understood.
    pub open spec fn messages(self) -> Seq<String> {
        match self {
            ConfigResult::ParsingError(errors) => errors@,
            _ => Seq::empty(),
        }
    }

    /// The configuration could be read at all: lines were read, whether
    /// or not each was understood.
    pub open spec fn was_read(self) -> bool {
        self is Loaded || self is ParsingError
    }
}

/// Takes note of the outcome of one line. A line that was understood
/// changes nothing. The message of one that was not is added to the
/// messages so far; the first such message turns `Loaded` into
/// `ParsingError`. Where the configuration could not be read at all,
/// nothing is noted.
pub fn update_result(config_result: &mut ConfigResult, result: Result<(), String>)
    ensures
        result is Ok || !old(config_result).was_read() ==> *final(config_result) == *old(config_result),
        result is Err && old(config_result).was_read() ==> {
            &&& (*final(config_result)) is ParsingError
            &&& final(config_result).messages() == old(config_result).messages().push(result->Err_0)
        },
{
    match result {
        Ok(()) => {},
        Err(message) => {
            match config_result {
                ConfigResult::ParsingError(error_vec) => {
                    error_vec.push(message);
                },
                ConfigResult::Loaded => {
                    let mut error_vec: Vec<String> = Vec::new();
                    error_vec.push(message);
                    *config_result = ConfigResult::ParsingError(error_vec);
                },
                _ => {},
            }
        },
    }
}

/// What a line of a configuration asks for.
#[derive(Clone, Copy, Debug, PartialEq, Eq, Structural)]
pub enum ConfigLine {
    /// Messages go to the terminal.
    LogToTerminal,
    /// Messages go to a file.
    LogToFile,
    /// The line's value is the path of the file for messages.
    LogFile,
    /// The program talks through the terminal.
    TerminalUi,
    /// The program talks through windows.
    GraphicalUi,
    /// The line asks for nothing.
    Nothing,
}

/// What a line with the given variable and value asks for, where it is
/// understood. Variables and values are read without regard to case.
/// `log_mode` takes `terminal` or `ui`, and `file`; `terminal` takes `1` or
/// `true`, and `0` or `false`; other values of the two ask for nothing.
/// `log_file` takes any value. `test` takes `true` or `1`, which ask for
/// nothing. Any other value of `test`, and any other variable, is not
/// understood.
pub open spec fn line_meaning(variable: Seq<char>, value: Seq<char>) -> Option<ConfigLine> {
    if same_word(variable, "log_mode"@) {
        if same_word(value, "terminal"@) || same_word(value, "ui"@) {
            Some(ConfigLine::LogToTerminal)
        } else if same_word(value, "file"@) {
            Some(ConfigLine::LogToFile)
        } else {
            Some(ConfigLine::Nothing)
        }
    } else if same_word(variable, "log_file"@) {
        Some(ConfigLine::LogFile)
    } else if same_word(variable, "terminal"@) {
        if same_word(value, "1"@) || same_word(value, "true"@) {
            Some(ConfigLine::TerminalUi)
        } else if same_word(value, "0"@) || same_word(value, "false"@) {
            Some(ConfigLine::GraphicalUi)
        } else {
            Some(ConfigLine::Nothing)
        }
    } else if same_word(variable, "test"@) {
        if same_word(value, "true"@) || same_word(value, "1"@) {
            Some(ConfigLine::Nothing)
        } else {
            None
        }
    } else {
        None
    }
}

/// The message about a line that is not understood.
pub open spec fn line_error(variable: Seq<char>, value: Seq<char>) -> Seq<char> {
    if same_word(variable, "test"@) {
        "Config test failed"@
    } else {
        "Could not parse variable/value pair: variable=\""@ + variable + "\", and value=\""@
            + value + "\""@
    }
}

/// Reads one line of a configuration, given as the variable before the
/// colon and the value after it: what the line asks for, or the message
/// about a line that is not understood.
#[verifier::rlimit(30)]
pub fn read_line(variable: &str, value: &str) -> (r: Result<ConfigLine, String>)
    ensures
        r matches Ok(line) ==> line_meaning(variable@, value@) == Some(line),
        r matches Err(message) ==> line_meaning(variable@, value@) is None && message@
            == line_error(variable@, value@),
{
    if same_word_as(variable, "log_mode") {
        if same_word_as(value, "terminal") || same_word_as(value, "ui") {
            Ok(ConfigLine::LogToTerminal)
        } else if same_word_as(value, "file") {
            Ok(ConfigLine::LogToFile)
        } else {
            Ok(ConfigLine::Nothing)
        }
    } else if same_word_as(variable, "log_file") {
        Ok(ConfigLine::LogFile)
    } else if same_word_as(variable, "terminal") {
        if same_word_as(value, "1") || same_word_as(value, "true") {
            Ok(ConfigLine::TerminalUi)
        } else if same_word_as(value, "0") || same_word_as(value, "false") {
            Ok(ConfigLine::GraphicalUi)
        } else {
            Ok(ConfigLine::Nothing)
        }
    } else if same_word_as(variable, "test") {
        if same_word_as(value, "true") || same_word_as(value, "1") {
            Ok(ConfigLine::Nothing)
        } else {
            Err(String::from_str("Config test failed"))
        }
    } else {
        let mut message = String::from_str("Could not parse variable/value pair: variable=\"");
        message.append(variable);
        message.append("\", and value=\"");
        message.append(value);
        message.append("\"");
        Err(message)
    }
}

} // verus!
