//! What can go wrong when text is read as a span of time.

use std::num::ParseIntError;
use vstd::prelude::*;
use vstd::string::StringExecFns;

verus! {

/// Why text in the unit notation is no span of time.
#[derive(Debug)]
pub enum PorsmoError {
    /// The text is not laid out as hours, minutes and seconds.
    WrongFormatError,
    /// A part that should be a number is none.
    ParseIntError(ParseIntError),
}

/// The text of the standard library's error for text that is no number, as
/// its `Display` gives it. It is made for people to read, and nothing is
/// promised of it.
#[verifier::external_body]
pub(crate) fn int_error_text(error: &ParseIntError) -> (text: String) {
    error.to_string()
}

impl PorsmoError {
    /// The error in words.
    pub fn message(&self) -> (text: String)
        ensures
            *self is WrongFormatError ==> text@ == "Wrong format for time"@,
    {
        match self {
            PorsmoError::WrongFormatError => String::from_str("Wrong format for time"),
            PorsmoError::ParseIntError(error) => int_error_text(error),
        }
    }
}

} // verus!
