//! A coroutine that takes an initial input, before it has got it.

use crate::coroutine::{Coroutine, Suspender};
use crate::error::WithInputError;
use core::future::Future;
use core::marker::PhantomData;
use flume::{Receiver, RecvError, WeakSender};
use vstd::prelude::*;

verus! {

/// A coroutine that was created to take an initial input and has not started.
/// It holds what its body will be started with, and does nothing until the
/// first resume of its handle supplies the input.
///
/// It keeps no handle of itself, only the means to get one back when it
/// starts: so the handles that others hold are all there are, and once the
/// last of them is dropped the wait for the input fails.
#[must_use]
#[verifier::reject_recursive_types(Input)]
#[verifier::reject_recursive_types(F)]
#[verifier::reject_recursive_types(Start)]
pub struct Startup<Input, F, Start> where
    F: Future,
    Start: FnOnce(Coroutine<Input>, Suspender<Input>, Input) -> F,
 {
    myself: WeakSender<Input>,
    suspender: Suspender<Input>,
    start: Start,
    body: PhantomData<F>,
}

impl<Input, F, Start> Startup<Input, F, Start> where
    F: Future,
    Start: FnOnce(Coroutine<Input>, Suspender<Input>, Input) -> F,
 {
    /// The suspender that the body will get.
    pub closed spec fn suspender(&self) -> Suspender<Input> {
        self.suspender
    }

    /// The function that makes the body.
    pub closed spec fn start(&self) -> Start {
        self.start
    }

    /// The body can be started with the suspender on any input, whatever
    /// handle it gets of itself.
    #[verifier::type_invariant]
    spec fn startable(&self) -> bool {
        forall|myself: Coroutine<Input>, input: Input|
            self.start.requires((myself, self.suspender, input))
    }

    /// The receiving end on which the coroutine waits for its initial input.
    pub fn receiver(&self) -> (end: &Receiver<Input>)
        ensures
            *end == self.suspender().end(),
    {
        self.suspender.receiver()
    }

    /// Makes the body with `input`. The body gets `myself` as the handle of
    /// its own coroutine. Where there is none, because every handle was
    /// dropped after the input was sent, it gets a handle of a channel that
    /// nobody receives from: the coroutine cannot be resumed any more, and a
    /// resume through that handle fails as any resume of it would.
    pub fn begin_with(self, myself: Option<Coroutine<Input>>, input: Input) -> (body: F)
        ensures
            match myself {
                Some(handle) => self.start().ensures((handle, self.suspender(), input), body),
                None => exists|orphan: Coroutine<Input>|
                    self.start().ensures((orphan, self.suspender(), input), body),
            },
    {
        proof {
            use_type_invariant(&self);
        }
        match myself {
            Some(handle) => (self.start)(handle, self.suspender, input),
            None => {
                let (sender, _) = flume::bounded(0);
                let orphan = Coroutine::from_sender(sender);
                let ghost given = orphan;
                let body = (self.start)(orphan, self.suspender, input);
                assert(self.start().ensures((given, self.suspender(), input), body));
                body
            },
        }
    }

    /// Ends the wait for the initial input with what was received. On an
    /// input the body is made with it, as [`Startup::begin_with`] says, and
    /// handed out to be run; the handle that the body gets of itself is the
    /// one that the channel still gives, if it gives any. When the wait
    /// failed, because every handle was dropped before any input was given,
    /// the body is never made and the coroutine is canceled.
    pub fn begin(self, received: Result<Input, RecvError>) -> (started: Result<F, WithInputError>)
        ensures
            match received {
                Ok(input) => started is Ok && exists|myself: Coroutine<Input>|
                    self.start().ensures((myself, self.suspender(), input), started->Ok_0),
                Err(_) => started is Err && started->Err_0 == WithInputError::Canceled,
            },
    {
        match received {
            Ok(input) => {
                let myself = match self.myself.upgrade() {
                    Some(sender) => Some(Coroutine::from_sender(sender)),
                    None => None,
                };
                let ghost given = myself;
                let body = self.begin_with(myself, input);
                let started = Ok(body);
                proof {
                    let handle = match given {
                        Some(handle) => handle,
                        None => choose|orphan: Coroutine<Input>|
                            self.start().ensures((orphan, self.suspender(), input), body),
                    };
                    assert(self.start().ensures((handle, self.suspender(), input), started->Ok_0));
                }
                started
            },
            Err(error) => Err(WithInputError::from(error)),
        }
    }
}

impl<Input> Coroutine<Input> {
    /// Creates a coroutine that takes an initial input. It does not run until
    /// it is resumed or yielded to, which supplies the input; the handle that
    /// is returned is the one to resume it by.
    pub fn with_input<F: Future, Start: FnOnce(Self, Suspender<Input>, Input) -> F>(
        start: Start,
    ) -> (made: (Self, Startup<Input, F, Start>))
        requires
            forall|myself: Self, suspender: Suspender<Input>, input: Input|
                start.requires((myself, suspender, input)),
        ensures
            made.1.suspender().channel() == made.0.channel(),
            made.1.start() == start,
    {
        let (starter_handle, myself, suspender) = Self::prepare();
        let weak = myself.sender().downgrade();
        (starter_handle, Startup { myself: weak, suspender, start, body: PhantomData })
    }
}

} // verus!
