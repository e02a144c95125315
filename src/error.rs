use vstd::prelude::*;

verus! {

/// A field of the watch page that a session needs.
#[derive(Debug, Clone, Copy, PartialEq, Eq, Structural)]
pub enum MissingField {
    ApiKey,
    ClientVersion,
    Continuation,
}

/// Why a call could not do its work.
#[derive(Debug, Clone, Copy, PartialEq, Eq, Structural)]
pub enum ChatError {
    /// No live stream at the given target.
    NotFound,
    /// The target is a finished broadcast, or its chat has no next step.
    AlreadyEnded,
    /// An expected field is absent: the upstream format changed.
    SchemaMismatch(MissingField),
    /// The transport failed.
    TransportFailure,
    /// The response document does not have the expected shape.
    MalformedResponse,
    /// The client holds no session: `start` has not succeeded.
    NotStarted,
    /// No watch target was given before `build`.
    MissingTarget,
    /// The watch target is not a well-formed URL.
    InvalidUrl,
}

impl ChatError {
    /// A sentence that describes the error.
    pub fn message(&self) -> &'static str {
        match self {
            ChatError::NotFound => "Live Stream was not found.",
            ChatError::AlreadyEnded => "The live stream has finished.",
            ChatError::SchemaMismatch(MissingField::ApiKey) => "API key was not found.",
            ChatError::SchemaMismatch(MissingField::ClientVersion) => "Client Version was not found.",
            ChatError::SchemaMismatch(MissingField::Continuation) => "Continuation was not found.",
            ChatError::TransportFailure => "The request to the chat endpoint failed.",
            ChatError::MalformedResponse => "The chat response does not have the expected shape.",
            ChatError::NotStarted => "This client is not ready for execute, just call `start`",
            ChatError::MissingTarget => "No live stream was chosen before `build`.",
            ChatError::InvalidUrl => "The live stream URL is not well formed.",
        }
    }
}

} // verus!
