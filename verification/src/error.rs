//! Error taxonomy of the library.
//!
//! Every fallible public operation returns one of these typed errors; the
//! verified functions never panic on protocol-level malformed input.

use vstd::prelude::*;

use crate::text::{concat_str, i64_string, int_text, join_strings, join_text};

verus! {

/// A typed library error.
#[derive(Debug)]
pub enum Error {
    /// The backend binary could not be resolved.
    CliNotFound(String),
    /// I/O failure while talking to the backend process.
    Connection(String),
    /// An operation was attempted before a session existed.
    NotConnected,
    /// The backend process exited with a non-zero status.
    Process { exit_code: i32, stderr: Option<String> },
    /// A line was not valid JSON.
    JsonDecode(String),
    /// A wire event was malformed or missing a required field.
    MessageParse(String),
    /// No matching control response arrived within the bound.
    ControlTimeout(String),
    /// The active backend's capability table disallows the operation.
    UnsupportedFeature { feature: String, backend: String },
    /// The given options name fields the backend does not support.
    UnsupportedOptions { backend: String, options: Vec<String> },
    /// Protocol-invariant violations and other failures.
    Other(String),
}

/// The display text of an error.
pub open spec fn error_text(e: Error) -> Seq<char> {
    match e {
        Error::CliNotFound(s) => "CLI not found: "@ + s@,
        Error::Connection(s) => "Connection error: "@ + s@,
        Error::NotConnected => "Not connected. Call connect() first."@,
        Error::Process { exit_code, stderr: _ } => "Process failed with exit code "@ + int_text(
            exit_code as int,
        ),
        Error::JsonDecode(s) => "JSON decode error: "@ + s@,
        Error::MessageParse(s) => "Message parse error: "@ + s@,
        Error::ControlTimeout(s) => "Control request timeout: "@ + s@,
        Error::UnsupportedFeature { feature, backend } => "Feature '"@ + feature@
            + "' is not supported by the "@ + backend@ + " backend"@,
        Error::UnsupportedOptions { backend, options } => "Options not supported by "@ + backend@
            + " backend: "@ + join_text(options@.map_values(|o: String| o@), ", "@),
        Error::Other(s) => s@,
    }
}

impl Error {
    /// The error rendered as one line of text.
    pub fn message(&self) -> (r: String)
        ensures
            r@ == error_text(*self),
    {
        match self {
            Error::CliNotFound(s) => concat_str("CLI not found: ", s.as_str()),
            Error::Connection(s) => concat_str("Connection error: ", s.as_str()),
            Error::NotConnected => String::from_str("Not connected. Call connect() first."),
            Error::Process { exit_code, stderr: _ } => {
                let code_text = i64_string(*exit_code as i64);
                concat_str("Process failed with exit code ", code_text.as_str())
            },
            Error::JsonDecode(s) => concat_str("JSON decode error: ", s.as_str()),
            Error::MessageParse(s) => concat_str("Message parse error: ", s.as_str()),
            Error::ControlTimeout(s) => concat_str("Control request timeout: ", s.as_str()),
            Error::UnsupportedFeature { feature, backend } => {
                let head = concat_str("Feature '", feature.as_str());
                let mid = concat_str(head.as_str(), "' is not supported by the ");
                let tail = concat_str(mid.as_str(), backend.as_str());
                concat_str(tail.as_str(), " backend")
            },
            Error::UnsupportedOptions { backend, options } => {
                let head = concat_str("Options not supported by ", backend.as_str());
                let mid = concat_str(head.as_str(), " backend: ");
                let joined = join_strings(options, ", ");
                concat_str(mid.as_str(), joined.as_str())
            },
            Error::Other(s) => s.clone(),
        }
    }
}

/// The usual result type of the library.
pub type Result<T> = core::result::Result<T, Error>;

} // verus!
