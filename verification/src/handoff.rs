//! Resuming a coroutine, and handing control from one coroutine to another.
//!
//! Both are written as what is to be done next: a value of [`Resume`] or of
//! [`Handoff`] names the rendezvous that has to be made, and the function that
//! takes the outcome of that rendezvous gives the value that follows.

use crate::coroutine::{Coroutine, Suspender};
use crate::error::{ResumeError, TryYieldError};
use flume::{RecvError, SendError};
use vstd::prelude::*;

verus! {

/// A resume of one coroutine, from the request to its result.
#[must_use]
#[verifier::reject_recursive_types(Input)]
pub enum Resume<'a, Input> {
    /// `input` has still to be sent through the channel of `target`. The send
    /// ends when the coroutine accepts the input or when its suspender is
    /// gone; [`Resume::sent`] takes the outcome.
    Sending { target: &'a Coroutine<Input>, input: Input },
    /// The resume is over.
    Finished { result: Result<(), ResumeError<Input>> },
}

impl<'a, Input> Resume<'a, Input> {
    /// What a resume comes to when its send ended with `outcome`: it is over,
    /// with success if the coroutine took the input, and else with the input
    /// that came back.
    pub open spec fn after_send(outcome: Result<(), SendError<Input>>) -> Self {
        Resume::Finished {
            result: match outcome {
                Ok(()) => Ok(()),
                Err(error) => Err(ResumeError::Unresumable { input: error.0 }),
            },
        }
    }

    /// Ends the send of a resume with its outcome.
    pub fn sent(outcome: Result<(), SendError<Input>>) -> (next: Self)
        ensures
            next == Self::after_send(outcome),
    {
        match outcome {
            Ok(()) => Resume::Finished { result: Ok(()) },
            Err(error) => Resume::Finished { result: Err(ResumeError::from(error)) },
        }
    }
}

impl<Input> Coroutine<Input> {
    /// A resume of this coroutine with `input`, before anything was sent.
    pub open spec fn resuming<'a>(&'a self, input: Input) -> Resume<'a, Input> {
        Resume::Sending { target: self, input }
    }

    /// Resumes the coroutine of this handle from its latest suspension with
    /// `input`, which that suspension then returns. A coroutine that takes an
    /// initial input and has not started is started with it.
    pub fn resume(&self, input: Input) -> (op: Resume<'_, Input>)
        ensures
            op == self.resuming(input),
    {
        Resume::Sending { target: self, input }
    }
}

/// A handoff from one coroutine to another: the other coroutine is resumed
/// with a value, and then the first is suspended until somebody resumes it.
#[must_use]
#[verifier::reject_recursive_types(ResumeValue)]
#[verifier::reject_recursive_types(Yield)]
pub enum Handoff<'a, ResumeValue, Yield> {
    /// The other coroutine is being resumed, as `peer` says.
    /// [`Handoff::peer_resumed`] takes the result of that resume.
    Resuming { peer: Resume<'a, Yield>, suspender: &'a Suspender<ResumeValue> },
    /// The other coroutine took the value, and this one waits on the
    /// receiving end of `suspender` to be resumed. [`Handoff::received`]
    /// takes the outcome of the wait.
    Suspended { suspender: &'a Suspender<ResumeValue> },
    /// The handoff is over.
    Finished { result: Result<ResumeValue, TryYieldError<Yield>> },
}

impl<'a, ResumeValue, Yield> Handoff<'a, ResumeValue, Yield> {
    /// What a handoff comes to when the resume of the other coroutine ended
    /// with `result`. If the other coroutine took the value, the coroutine of
    /// `suspender` is suspended. If not, the handoff is over without any
    /// wait, and the value that could not be yielded comes back.
    pub open spec fn after_resume(
        suspender: &'a Suspender<ResumeValue>,
        result: Result<(), ResumeError<Yield>>,
    ) -> Self {
        match result {
            Ok(()) => Handoff::Suspended { suspender },
            Err(error) => Handoff::Finished {
                result: Err(TryYieldError::OtherUnresumable { value: error->input }),
            },
        }
    }

    /// What a handoff comes to when the wait of the suspended coroutine ended
    /// with `outcome`: it is over, with the value that the coroutine was
    /// resumed with, or canceled if every handle of the coroutine is gone.
    pub open spec fn after_receive(outcome: Result<ResumeValue, RecvError>) -> Self {
        Handoff::Finished {
            result: match outcome {
                Ok(resume_value) => Ok(resume_value),
                Err(_) => Err(TryYieldError::Canceled),
            },
        }
    }

    /// Ends the first half of a handoff with the result of the resume of the
    /// other coroutine.
    pub fn peer_resumed(
        suspender: &'a Suspender<ResumeValue>,
        result: Result<(), ResumeError<Yield>>,
    ) -> (next: Self)
        ensures
            next == Self::after_resume(suspender, result),
    {
        match result {
            Ok(()) => Handoff::Suspended { suspender },
            Err(error) => Handoff::Finished { result: Err(TryYieldError::from(error)) },
        }
    }

    /// Ends the second half of a handoff with the outcome of the wait.
    pub fn received(outcome: Result<ResumeValue, RecvError>) -> (next: Self)
        ensures
            next == Self::after_receive(outcome),
    {
        match outcome {
            Ok(resume_value) => Handoff::Finished { result: Ok(resume_value) },
            Err(error) => Handoff::Finished { result: Err(TryYieldError::from(error)) },
        }
    }
}

impl<ResumeValue> Suspender<ResumeValue> {
    /// A handoff from the coroutine of this suspender to `other` with
    /// `value`, before anything was sent: first of all `other` is resumed
    /// with `value`.
    pub open spec fn yielding<'a, Yield>(
        &'a self,
        other: &'a Coroutine<Yield>,
        value: Yield,
    ) -> Handoff<'a, ResumeValue, Yield> {
        Handoff::Resuming { peer: other.resuming(value), suspender: self }
    }

    /// Yields the coroutine of this suspender, suspending it, and resumes the
    /// `other` coroutine with `value`.
    pub fn try_yield_to<'a, Yield>(&'a self, other: &'a Coroutine<Yield>, value: Yield) -> (op:
        Handoff<'a, ResumeValue, Yield>)
        ensures
            op == self.yielding(other, value),
    {
        Handoff::Resuming { peer: other.resume(value), suspender: self }
    }

    /// The value that a handoff returned, for a coroutine whose peers and
    /// handles are known to outlive its handoffs: the handoff did not fail.
    pub fn yield_to<Yield>(outcome: Result<ResumeValue, TryYieldError<Yield>>) -> (resume_value:
        ResumeValue)
        requires
            outcome is Ok,
        ensures
            outcome == Ok::<ResumeValue, TryYieldError<Yield>>(resume_value),
    {
        outcome.ok().unwrap()
    }
}

} // verus!
