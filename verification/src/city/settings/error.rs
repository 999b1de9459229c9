//! What can be wrong with settings.

use vstd::prelude::*;
use vstd::string::StringExecFns;
use crate::text::{decimal, digits, dotted, join};

verus! {

/// Why settings could not be read or changed.
#[derive(Clone, Debug)]
pub enum Error {
    /// No setting exists at the path.
    NonexistantSetting(Vec<String>),
    /// The setting at the path holds a value of another type.
    WrongType(Vec<String>),
    /// A line of a settings script is wrong; lines count from zero.
    LineError { line: u32, cause: LineError },
}

/// What is wrong with a line of a settings script.
#[derive(Clone, Debug)]
pub enum LineError {
    /// The line has more or fewer than four words.
    WordCount,
    /// The line does not follow the pattern of an assignment.
    Syntax,
    /// A value with a unit is not a number.
    ExpectedNumber,
    /// The line names a setting that does not exist.
    NonexistantSetting(Vec<String>),
}

/// The keys of a path as characters.
pub open spec fn keys(path: Seq<String>) -> Seq<Seq<char>> {
    path.map_values(|s: String| s@)
}

impl LineError {
    /// What the user is told about the line.
    pub open spec fn message_text(self) -> Seq<char> {
        match self {
            LineError::WordCount =>
                "More or less than 4 words in a line is not allowed, do you have an extra space?"@,
            LineError::Syntax => "Did you use proper syntax with the \"let\" and the \"be\"?"@,
            LineError::ExpectedNumber =>
                "The service expected a number because of a trailing unit (m, km), but the value was not parsable as a number"@,
            LineError::NonexistantSetting(setting) => "You tried to update a nonexistant setting: "@
                + dotted(keys(setting@), 0),
        }
    }

    /// What the user is told about the line.
    pub fn message(&self) -> (r: String)
        ensures
            r@ == self.message_text(),
    {
        match self {
            Self::WordCount => String::from_str(
                "More or less than 4 words in a line is not allowed, do you have an extra space?",
            ),
            Self::Syntax => String::from_str(
                "Did you use proper syntax with the \"let\" and the \"be\"?",
            ),
            Self::ExpectedNumber => String::from_str(
                "The service expected a number because of a trailing unit (m, km), but the value was not parsable as a number",
            ),
            Self::NonexistantSetting(setting) => {
                let mut r = String::from_str("You tried to update a nonexistant setting: ");
                r.append(join(setting).as_str());
                r
            },
        }
    }
}

impl Error {
    /// What the user is told about the error. Lines are counted from one.
    pub open spec fn message_text(self) -> Seq<char> {
        match self {
            Error::NonexistantSetting(path) =>
                "You tried to get or modify a nonexistent setting at path "@ + dotted(
                    keys(path@),
                    0,
                ),
            Error::WrongType(path) => "You set the wrong type for "@ + dotted(keys(path@), 0)
                + ", if it's a number, then check units are correct and make sure there are no spaces between the number and unit."@,
            Error::LineError { line, cause } => "Syntax error on line "@ + digits(line + 1) + ": "@
                + cause.message_text(),
        }
    }

    /// What the user is told about the error.
    pub fn message(&self) -> (r: String)
        ensures
            r@ == self.message_text(),
    {
        match self {
            Self::NonexistantSetting(path) => {
                let mut r = String::from_str(
                    "You tried to get or modify a nonexistent setting at path ",
                );
                r.append(join(path).as_str());
                r
            },
            Self::WrongType(path) => {
                let mut r = String::from_str("You set the wrong type for ");
                r.append(join(path).as_str());
                r.append(
                    ", if it's a number, then check units are correct and make sure there are no spaces between the number and unit.",
                );
                r
            },
            Self::LineError { line, cause } => {
                let mut r = String::from_str("Syntax error on line ");
                r.append(decimal(*line as u64 + 1).as_str());
                r.append(": ");
                r.append(cause.message().as_str());
                r
            },
        }
    }
}

} // verus!
