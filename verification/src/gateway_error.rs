//! How a task of the gateway ends when it does not run on.

use vstd::prelude::*;
use vstd::string::*;

verus! {

/// The result with which a worker or the sink adapter ends.
#[derive(Clone, Debug)]
pub enum GatewayError {
    /// The device stopped answering; the supervisor will try it again.
    CommunicationError(String),
    /// Something went wrong that the task cannot name more closely.
    Error(String),
    /// The task ends because it was asked to.
    ExitingThread,
    Unspecified,
}

/// The text of a [`GatewayError`].
pub open spec fn error_text(e: GatewayError) -> Seq<char> {
    match e {
        GatewayError::CommunicationError(s) => "Communication Error: "@ + s@,
        GatewayError::Error(s) => "Error from thread: "@ + s@,
        GatewayError::ExitingThread => "Exiting thread"@,
        GatewayError::Unspecified => "Unspecified error"@,
    }
}

impl GatewayError {
    /// The error in words.
    pub fn message(&self) -> (r: String)
        ensures
            r@ == error_text(*self),
    {
        match self {
            GatewayError::CommunicationError(s) => {
                let mut r = String::from_str("Communication Error: ");
                r.append(s.as_str());
                r
            },
            GatewayError::Error(s) => {
                let mut r = String::from_str("Error from thread: ");
                r.append(s.as_str());
                r
            },
            GatewayError::ExitingThread => String::from_str("Exiting thread"),
            GatewayError::Unspecified => String::from_str("Unspecified error"),
        }
    }

    /// Whether the task ended because it was asked to, which is no failure.
    pub fn is_exit_by_request(&self) -> (r: bool)
        ensures
            r == (*self is ExitingThread),
    {
        match self {
            GatewayError::ExitingThread => true,
            _ => false,
        }
    }
}

impl Default for GatewayError {
    fn default() -> (r: GatewayError)
        ensures
            r is Unspecified,
    {
        GatewayError::Unspecified
    }
}

} // verus!
