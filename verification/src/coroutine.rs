//! The two capabilities of a coroutine: the handle by which others resume it,
//! and the suspender by which its own body suspends it.

use core::future::Future;
use flume::{Receiver, Sender};
use vstd::prelude::*;
use vstd::std_specs::cmp::PartialEqSpecImpl;

verus! {

/// Handle for resuming a coroutine. Any number of handles may address one
/// coroutine; each is as good as any other.
#[derive(Debug)]
#[verifier::reject_recursive_types(Input)]
pub struct Coroutine<Input> {
    sender: Sender<Input>,
}

/// Handle for suspending a coroutine, held by the body of that coroutine
/// alone. There is one per coroutine and it cannot be copied.
#[verifier::reject_recursive_types(ResumeValue)]
pub struct Suspender<ResumeValue> {
    receiver: Receiver<ResumeValue>,
    /// The sending end that was made together with `receiver`.
    made_with: Ghost<Sender<ResumeValue>>,
}

impl<Input> Coroutine<Input> {
    /// The channel that this handle resumes through. Two handles address one
    /// coroutine exactly when their channels are equal.
    pub closed spec fn channel(&self) -> Sender<Input> {
        self.sender
    }

    /// Makes the channel of a new coroutine and hands out its three
    /// capabilities: the handle for whoever starts the coroutine, the handle
    /// that the body gets of itself, and the suspender.
    pub(crate) fn prepare() -> (made: (Self, Self, Suspender<Input>))
        ensures
            made.1 == made.0,
            made.2.channel() == made.0.channel(),
    {
        let (sender, receiver) = flume::bounded(0);
        let suspender = Suspender { receiver, made_with: Ghost(sender) };
        let self_handle = Coroutine { sender };
        let myself = self_handle.clone();
        (self_handle, myself, suspender)
    }

    /// Creates a coroutine that takes no initial input: `start` is called at
    /// once with the coroutine's own handle and its suspender, and what it
    /// returns is the body, which runs as soon as it is first polled.
    pub fn new<F: Future>(start: impl FnOnce(Self, Suspender<Input>) -> F) -> (made: (Self, F))
        requires
            forall|myself: Self, suspender: Suspender<Input>|
                suspender.channel() == myself.channel() ==> start.requires((myself, suspender)),
        ensures
            exists|suspender: Suspender<Input>|
                suspender.channel() == made.0.channel() && start.ensures(
                    (made.0, suspender),
                    made.1,
                ),
    {
        let (self_handle, myself, suspender) = Self::prepare();
        let body = start(myself, suspender);
        (self_handle, body)
    }

    /// The handle that a sending end of the channel is.
    pub(crate) fn from_sender(sender: Sender<Input>) -> (handle: Self)
        ensures
            handle.channel() == sender,
    {
        Coroutine { sender }
    }

    /// The sending end through which the coroutine is resumed.
    pub fn sender(&self) -> (end: &Sender<Input>)
        ensures
            *end == self.channel(),
    {
        &self.sender
    }
}

impl<Input> Clone for Coroutine<Input> {
    /// Another handle of the same coroutine.
    fn clone(&self) -> (copy: Self)
        ensures
            copy == *self,
    {
        Coroutine { sender: self.sender.clone() }
    }
}

impl<Input> PartialEq for Coroutine<Input> {
    fn eq(&self, other: &Self) -> (same: bool) {
        self.sender.same_channel(&other.sender)
    }
}

impl<Input> PartialEqSpecImpl for Coroutine<Input> {
    open spec fn obeys_eq_spec() -> bool {
        true
    }

    /// Two handles are equal exactly when they address one channel.
    open spec fn eq_spec(&self, other: &Self) -> bool {
        self.channel() == other.channel()
    }
}

impl<Input> Eq for Coroutine<Input> {

}

impl<ResumeValue> Suspender<ResumeValue> {
    /// The channel that this suspender receives from, named by its sending
    /// end: the channel of the handles of the same coroutine.
    pub closed spec fn channel(&self) -> Sender<ResumeValue> {
        self.made_with@
    }

    /// The receiving end, as a value that two suspenders share exactly when
    /// they are one.
    pub closed spec fn end(&self) -> Receiver<ResumeValue> {
        self.receiver
    }

    /// The receiving end on which the coroutine waits to be resumed.
    pub fn receiver(&self) -> (end: &Receiver<ResumeValue>)
        ensures
            *end == self.end(),
    {
        &self.receiver
    }
}

impl<ResumeValue> PartialEq for Suspender<ResumeValue> {
    fn eq(&self, other: &Self) -> (same: bool) {
        self.receiver.same_channel(&other.receiver)
    }
}

impl<ResumeValue> PartialEqSpecImpl for Suspender<ResumeValue> {
    open spec fn obeys_eq_spec() -> bool {
        true
    }

    /// Two suspenders are equal exactly when they receive from one channel.
    open spec fn eq_spec(&self, other: &Self) -> bool {
        self.end() == other.end()
    }
}

impl<ResumeValue> Eq for Suspender<ResumeValue> {

}

} // verus!
