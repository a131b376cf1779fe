//! The errors that the monitor reports.

use vstd::prelude::*;
use vstd::string::*;

verus! {

/// A failure of the monitor, with the text of its cause.
#[derive(Debug, PartialEq, Eq)]
pub enum MonitorError {
    /// Reading or writing a file or a terminal failed.
    Io(String),
    /// The configuration cannot be used.
    Config(String),
    /// The metrics database refused an operation.
    Database(String),
    /// The logger could not be set up.
    Logger(String),
}

impl MonitorError {
    /// The text of the error: the kind of failure, then its cause.
    pub open spec fn spec_message(&self) -> Seq<char> {
        match self {
            MonitorError::Io(cause) => "IO error: "@ + cause@,
            MonitorError::Config(cause) => "Config error: "@ + cause@,
            MonitorError::Database(cause) => "Database error: "@ + cause@,
            MonitorError::Logger(cause) => "Logger error: "@ + cause@,
        }
    }

    /// The text of the error: the kind of failure, then its cause.
    pub fn message(&self) -> (text: String)
        ensures
            text@ == self.spec_message(),
    {
        match self {
            MonitorError::Io(cause) => String::from_str("IO error: ").concat(cause.as_str()),
            MonitorError::Config(cause) => String::from_str("Config error: ").concat(
                cause.as_str(),
            ),
            MonitorError::Database(cause) => String::from_str("Database error: ").concat(
                cause.as_str(),
            ),
            MonitorError::Logger(cause) => String::from_str("Logger error: ").concat(
                cause.as_str(),
            ),
        }
    }
}

/// The metrics provider could not be reached at all, so no sample exists
/// for this tick.
#[derive(Debug, PartialEq, Eq)]
pub struct CollectionError {
    pub reason: String,
}

/// A notifier could not deliver a message.
#[derive(Debug, PartialEq, Eq)]
pub struct NotifierError {
    pub reason: String,
}

} // verus!
