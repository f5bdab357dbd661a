//! The library's error: a logger that could not be installed, or a timestamp
//! that none of the accepted forms reads.

use vstd::prelude::*;

verus! {

#[verifier::external_type_specification]
#[verifier::external_body]
pub struct ExSetLoggerError(log::SetLoggerError);

#[derive(Debug)]
pub enum Error {
    /// The global logger was already set.
    Logger(log::SetLoggerError),
    /// The text given, unchanged, that no timestamp form accepts.
    InvalidTimestamp(String),
}

impl Error {
    /// A one-line description of the error.
    pub fn message(&self) -> (r: String)
        ensures
            self is Logger ==> r@ == "Logger initialization error"@,
            self is InvalidTimestamp ==> r@ == "Invalid timestamp format"@,
    {
        match self {
            Error::Logger(_) => String::from_str("Logger initialization error"),
            Error::InvalidTimestamp(_) => String::from_str("Invalid timestamp format"),
        }
    }
}

} // verus!
