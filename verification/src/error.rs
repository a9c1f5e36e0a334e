//! The ways in which a call on the client can fail.

use vstd::prelude::*;

verus! {

/// A failure of one client operation. Each is handed to the immediate caller;
/// none is retried.
#[derive(Debug)]
pub enum DuneError {
    /// No credential was found where one was required.
    MissingCredential,
    /// The request did not bring back a body; the cause is carried along.
    Transport(String),
    /// The body is not an execution envelope.
    Decode,
    /// The execution is in a state other than completed.
    ExecutionNotReady,
    /// The execution is completed, but the envelope holds no result.
    MalformedSuccess,
    /// The completed envelope could not be written to the cache.
    Storage,
}

impl DuneError {
    /// A short text for the failure.
    pub fn message(&self) -> (text: String)
        ensures
            text@ == match *self {
                DuneError::MissingCredential => "no credential is set"@,
                DuneError::Transport(cause) => "transport failure: "@ + cause@,
                DuneError::Decode => "the response is not an execution envelope"@,
                DuneError::ExecutionNotReady => "the execution has not completed"@,
                DuneError::MalformedSuccess => "the completed execution holds no result"@,
                DuneError::Storage => "the result could not be cached"@,
            },
    {
        match self {
            DuneError::MissingCredential => "no credential is set".to_owned(),
            DuneError::Transport(cause) => "transport failure: ".to_owned().concat(cause.as_str()),
            DuneError::Decode => "the response is not an execution envelope".to_owned(),
            DuneError::ExecutionNotReady => "the execution has not completed".to_owned(),
            DuneError::MalformedSuccess => "the completed execution holds no result".to_owned(),
            DuneError::Storage => "the result could not be cached".to_owned(),
        }
    }
}

} // verus!
