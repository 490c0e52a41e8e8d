//! Errors of the application's commands.

use vstd::prelude::*;

use crate::text::concat2;

verus! {

broadcast use vstd::string::group_string_axioms;

/// A failed command, a lost connection, or an unavailable resource.
#[derive(Debug, Clone)]
pub enum AppError {
    CommandError(String),
    ConnectionError(String),
    ResourceError(String),
}

impl AppError {
    /// The error's text, as the application reports it.
    pub open spec fn spec_message(self) -> Seq<char> {
        match self {
            AppError::CommandError(m) => "Command failed: "@ + m@,
            AppError::ConnectionError(m) => "Connection error: "@ + m@,
            AppError::ResourceError(m) => "Resource error: "@ + m@,
        }
    }

    /// The error's text, as the application reports it.
    pub fn message(&self) -> (r: String)
        ensures
            r@ == self.spec_message(),
    {
        match self {
            AppError::CommandError(m) => concat2("Command failed: ", m.as_str()),
            AppError::ConnectionError(m) => concat2("Connection error: ", m.as_str()),
            AppError::ResourceError(m) => concat2("Resource error: ", m.as_str()),
        }
    }
}

} // verus!
