//! The ways in which a start, a resume and a handoff fail.

use flume::{RecvError, SendError};
use vstd::prelude::*;
use vstd::std_specs::convert::FromSpecImpl;

verus! {

/// Why a coroutine that takes an initial input never ran.
#[derive(Debug, PartialEq, Eq, Clone, Copy)]
pub enum WithInputError {
    /// Every handle of the coroutine was dropped before an initial input was
    /// given: nothing can start it any more.
    Canceled,
}

impl WithInputError {
    /// The text that describes the error.
    pub fn message(&self) -> (text: String)
        ensures
            text@ == "associated `Coroutine` handle was dropped"@,
    {
        "associated `Coroutine` handle was dropped".to_owned()
    }
}

impl From<RecvError> for WithInputError {
    /// A failed wait for the initial input is a cancellation.
    fn from(_error: RecvError) -> (converted: Self) {
        WithInputError::Canceled
    }
}

impl FromSpecImpl<RecvError> for WithInputError {
    open spec fn obeys_from_spec() -> bool {
        true
    }

    open spec fn from_spec(error: RecvError) -> Self {
        WithInputError::Canceled
    }
}

/// Why a coroutine could not be resumed.
#[derive(Debug, PartialEq, Eq)]
pub enum ResumeError<T> {
    /// The suspender of the coroutine was dropped before `input` could be
    /// given to it: the coroutine can never be resumed again.
    Unresumable {
        /// The input that could not be given.
        input: T,
    },
}

impl<T> ResumeError<T> {
    /// The text that describes the error.
    pub fn message(&self) -> (text: String)
        ensures
            text@ == "associated `Suspender` handle was dropped"@,
    {
        "associated `Suspender` handle was dropped".to_owned()
    }
}

impl<T> From<SendError<T>> for ResumeError<T> {
    /// A failed send is an unresumable coroutine; the message that came back
    /// is the input that could not be given.
    fn from(error: SendError<T>) -> (converted: Self) {
        ResumeError::Unresumable { input: error.into_inner() }
    }
}

impl<T> FromSpecImpl<SendError<T>> for ResumeError<T> {
    open spec fn obeys_from_spec() -> bool {
        true
    }

    open spec fn from_spec(error: SendError<T>) -> Self {
        ResumeError::Unresumable { input: error.0 }
    }
}

/// Why a handoff to another coroutine failed.
#[derive(Debug, PartialEq, Eq)]
pub enum TryYieldError<T> {
    /// The suspender of the other coroutine was dropped before `value` could
    /// be yielded to it: the other coroutine can never be resumed again.
    OtherUnresumable {
        /// The value that could not be yielded.
        value: T,
    },
    /// Every handle of the yielding coroutine was dropped before a resume
    /// value was given: it is parked at a yield and can never be resumed.
    Canceled,
}

impl<T> TryYieldError<T> {
    /// The text that describes the error.
    pub fn message(&self) -> (text: String)
        ensures
            text@ == match *self {
                TryYieldError::OtherUnresumable { .. } =>
                    "other coroutine's `Suspender` handle was dropped"@,
                TryYieldError::Canceled => "associated `Coroutine` handle was dropped"@,
            },
    {
        match self {
            TryYieldError::OtherUnresumable { .. } =>
                "other coroutine's `Suspender` handle was dropped".to_owned(),
            TryYieldError::Canceled => "associated `Coroutine` handle was dropped".to_owned(),
        }
    }
}

impl<T> From<ResumeError<T>> for TryYieldError<T> {
    /// An unresumable peer, seen from the coroutine that yields to it; the
    /// input that could not be given is the value that could not be yielded.
    fn from(error: ResumeError<T>) -> (converted: Self) {
        match error {
            ResumeError::Unresumable { input } => TryYieldError::OtherUnresumable { value: input },
        }
    }
}

impl<T> FromSpecImpl<ResumeError<T>> for TryYieldError<T> {
    open spec fn obeys_from_spec() -> bool {
        true
    }

    open spec fn from_spec(error: ResumeError<T>) -> Self {
        TryYieldError::OtherUnresumable { value: error->input }
    }
}

impl<T> From<RecvError> for TryYieldError<T> {
    /// A failed wait for a resume value is a cancellation.
    fn from(_error: RecvError) -> (converted: Self) {
        TryYieldError::Canceled
    }
}

impl<T> FromSpecImpl<RecvError> for TryYieldError<T> {
    open spec fn obeys_from_spec() -> bool {
        true
    }

    open spec fn from_spec(error: RecvError) -> Self {
        TryYieldError::Canceled
    }
}

} // verus!
