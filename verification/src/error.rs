//! Errors reported before any line is produced.

use vstd::prelude::*;
use vstd::string::*;

verus! {

/// What can be wrong with the caller's configuration.
#[derive(Debug, Clone, PartialEq, Eq)]
pub enum ClockError {
    /// The identifier part of a zone token names no zone in the database.
    /// Holds the whole token as the user wrote it.
    InvalidTimeZone(String),
    /// The strftime pattern cannot be rendered. Holds the pattern.
    InvalidFormatPattern(String),
}

/// The text of the message for an unknown zone, given the offending token.
pub open spec fn invalid_zone_message(token: Seq<char>) -> Seq<char> {
    "failed to parse timezone '"@ + token + "'"@
}

/// The text of the message for an unusable pattern.
pub open spec fn invalid_pattern_message(pattern: Seq<char>) -> Seq<char> {
    "invalid time format '"@ + pattern + "'"@
}

impl ClockError {
    /// The message of this error as a sequence of characters.
    pub open spec fn message_text(self) -> Seq<char> {
        match self {
            ClockError::InvalidTimeZone(token) => invalid_zone_message(token@),
            ClockError::InvalidFormatPattern(pattern) => invalid_pattern_message(pattern@),
        }
    }

    /// A human-readable message that names the offending input.
    pub fn message(&self) -> (text: String)
        ensures
            text@ == self.message_text(),
    {
        match self {
            ClockError::InvalidTimeZone(token) => {
                let mut text = String::from_str("failed to parse timezone '");
                text.append(token.as_str());
                text.append("'");
                text
            },
            ClockError::InvalidFormatPattern(pattern) => {
                let mut text = String::from_str("invalid time format '");
                text.append(pattern.as_str());
                text.append("'");
                text
            },
        }
    }
}

} // verus!
