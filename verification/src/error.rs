//! The ways in which a session can fail, and which of them end it.

use vstd::prelude::*;

verus! {

/// The text of an optional string.
pub open spec fn optional_text(text: Option<String>) -> Option<Seq<char>> {
    match text {
        Some(inner) => Some(inner@),
        None => None,
    }
}

/// A lifecycle state that the graph was asked to enter.
#[derive(Clone, Copy, Debug, PartialEq, Eq, Structural)]
pub enum TargetState {
    Playing,
    Stopped,
}

/// An error that an element of the running graph raised.
#[derive(Debug, PartialEq, Eq)]
pub struct RuntimeFailure {
    /// Path of the element that raised the error.
    pub source_path: String,
    /// What went wrong.
    pub message: String,
    /// Diagnostic detail, where the element gave any.
    pub debug_detail: Option<String>,
}

/// The text that a [`RuntimeFailure`] carries.
pub struct RuntimeFailureView {
    pub source_path: Seq<char>,
    pub message: Seq<char>,
    pub debug_detail: Option<Seq<char>>,
}

impl View for RuntimeFailure {
    type V = RuntimeFailureView;

    open spec fn view(&self) -> RuntimeFailureView {
        RuntimeFailureView {
            source_path: self.source_path@,
            message: self.message@,
            debug_detail: optional_text(self.debug_detail),
        }
    }
}

/// Everything that can go wrong in a session.
#[derive(Debug, PartialEq, Eq)]
pub enum SessionError {
    /// The graph names an element that does not exist or is of the wrong kind.
    MissingElement(String),
    /// The ingestion point refused the declared media description.
    CapsNegotiationFailure,
    /// The graph could not enter the given state.
    StateChangeFailure(TargetState),
    /// An element raised an error while the session was running.
    PipelineRuntimeError(RuntimeFailure),
    /// The ingestion point did not take a frame.
    PushRejected,
}

/// The content of a [`SessionError`].
pub enum SessionErrorView {
    MissingElement(Seq<char>),
    CapsNegotiationFailure,
    StateChangeFailure(TargetState),
    PipelineRuntimeError(RuntimeFailureView),
    PushRejected,
}

impl View for SessionError {
    type V = SessionErrorView;

    open spec fn view(&self) -> SessionErrorView {
        match self {
            SessionError::MissingElement(name) => SessionErrorView::MissingElement(name@),
            SessionError::CapsNegotiationFailure => SessionErrorView::CapsNegotiationFailure,
            SessionError::StateChangeFailure(target) => SessionErrorView::StateChangeFailure(
                *target,
            ),
            SessionError::PipelineRuntimeError(failure) => SessionErrorView::PipelineRuntimeError(
                failure@,
            ),
            SessionError::PushRejected => SessionErrorView::PushRejected,
        }
    }
}

/// The content of an optional error.
pub open spec fn optional_error(error: Option<SessionError>) -> Option<SessionErrorView> {
    match error {
        Some(inner) => Some(inner@),
        None => None,
    }
}

/// The content of a result that is either nothing or an error.
pub open spec fn checked_view(checked: Result<(), SessionError>) -> Result<(), SessionErrorView> {
    match checked {
        Ok(_) => Ok(()),
        Err(error) => Err(error@),
    }
}

impl SessionErrorView {
    /// An error ends the session unless it is a rejected push, which only costs a frame, or a
    /// failure to stop, after which the graph is forced to stop all the same.
    pub open spec fn is_fatal(self) -> bool {
        match self {
            SessionErrorView::PushRejected => false,
            SessionErrorView::StateChangeFailure(TargetState::Stopped) => false,
            _ => true,
        }
    }
}

impl SessionError {
    /// Tells whether this error ends the session.
    pub fn is_fatal(&self) -> (fatal: bool)
        ensures
            fatal == self@.is_fatal(),
    {
        match self {
            SessionError::PushRejected => false,
            SessionError::StateChangeFailure(TargetState::Stopped) => false,
            _ => true,
        }
    }
}

} // verus!
