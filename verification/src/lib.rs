//! Symmetric coroutines over rendezvous channels: coroutines that hand control
//! to one another directly, each by resuming the other through its handle and
//! suspending itself in the same step.
//!
//! A coroutine has a channel without capacity of its own. Its handles, of type
//! [`Coroutine`], hold the sending end, and its one [`Suspender`] holds the
//! receiving end. Resuming a coroutine is a send on its channel, and a
//! suspended coroutine is one that waits to receive on it.
//!
//! The library never waits. Wherever a coroutine has to wait for a rendezvous,
//! a value says which rendezvous that is, and a function takes what the
//! rendezvous produced and gives what follows from it:
//!
//! - a coroutine that takes an initial input is a [`Startup`] until the input
//!   arrives; after that it is its body, or it is canceled;
//! - a resume is a [`Resume`], which sends and is finished;
//! - a handoff is a [`Handoff`], which resumes the other coroutine, is
//!   suspended, and is finished: with the value that the coroutine was
//!   resumed with, or canceled.
//!
//! Whoever runs a coroutine makes each rendezvous that is asked for and hands
//! back its outcome. What holds of all of this, whatever the values, is
//! stated in [`laws`].

pub mod coroutine;
pub mod error;
pub mod handoff;
pub mod laws;
pub mod startup;
pub mod transport;

pub use coroutine::{Coroutine, Suspender};
pub use error::{ResumeError, TryYieldError, WithInputError};
pub use handoff::{Handoff, Resume};
pub use startup::Startup;
