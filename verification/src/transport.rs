//! The rendezvous channel that carries values between coroutines, as far as the
//! library relies on it.
//!
//! Nothing in this file is proved: each item states what is taken on trust from
//! the channel crate, and most of them claim nothing at all.
//!
//! To the verifier a `Sender` or a `Receiver` is an opaque value. The library
//! reads that value as the identity of the channel that the endpoint belongs
//! to: two senders are equal values exactly when they address one channel, and
//! so are two receivers. The two claims that are made of senders and receivers
//! below say no more than that.

use flume::{Receiver, RecvError, SendError, Sender, WeakSender};
use vstd::prelude::*;

verus! {

/// `flume::Sender`: the sending end of a channel, opaque.
#[verifier::external_type_specification]
#[verifier::external_body]
#[verifier::reject_recursive_types(T)]
pub struct ExSender<T>(Sender<T>);

/// `flume::WeakSender`: a sending end that does not keep its channel open,
/// opaque.
#[verifier::external_type_specification]
#[verifier::external_body]
#[verifier::reject_recursive_types(T)]
pub struct ExWeakSender<T>(WeakSender<T>);

/// `flume::Receiver`: the receiving end of a channel, opaque.
#[verifier::external_type_specification]
#[verifier::external_body]
#[verifier::reject_recursive_types(T)]
pub struct ExReceiver<T>(Receiver<T>);

/// `flume::SendError`: the failure of a send. It is a tuple struct whose one
/// field is public and holds the message that could not be delivered, and it
/// is declared with that field.
#[verifier::external_type_specification]
#[verifier::reject_recursive_types(T)]
pub struct ExSendError<T>(SendError<T>);

/// `flume::RecvError`: the failure of a receive, opaque. It has one value,
/// which says that every sender is gone.
#[verifier::external_type_specification]
#[verifier::external_body]
pub struct ExRecvError(RecvError);

/// `flume::bounded`: makes a channel of the given capacity and returns its two
/// ends. Nothing is claimed of them.
pub assume_specification<T>[ flume::bounded::<T> ](cap: usize) -> (ends: (Sender<T>, Receiver<T>))
;

/// `Sender::clone`: the copy shares the channel of the sender it is made from,
/// so it is the same value.
pub assume_specification<T>[ <Sender<T> as Clone>::clone ](sender: &Sender<T>) -> (copy: Sender<T>)
    ensures
        copy == *sender,
;

/// `Sender::same_channel`: compares the shared state behind the two senders by
/// address, so it tells whether they are the same value.
pub assume_specification<T>[ Sender::<T>::same_channel ](
    sender: &Sender<T>,
    other: &Sender<T>,
) -> (same: bool)
    ensures
        same == (*sender == *other),
;

/// `Receiver::same_channel`: compares the shared state behind the two
/// receivers by address, so it tells whether they are the same value.
pub assume_specification<T>[ Receiver::<T>::same_channel ](
    receiver: &Receiver<T>,
    other: &Receiver<T>,
) -> (same: bool)
    ensures
        same == (*receiver == *other),
;

/// `Sender::downgrade`: a weak sender of the same channel. Nothing is claimed
/// of it.
pub assume_specification<T>[ Sender::<T>::downgrade ](sender: &Sender<T>) -> (weak: WeakSender<T>)
;

/// `WeakSender::upgrade`: a sender of the channel again, unless every sender
/// of it was dropped by then. Which of the two comes back depends on what
/// others did meanwhile, and nothing is claimed of it.
pub assume_specification<T>[ WeakSender::<T>::upgrade ](weak: &WeakSender<T>) -> (sender: Option<
    Sender<T>,
>)
;

/// `SendError::into_inner`: hands out the message that the error carries.
pub assume_specification<T>[ SendError::<T>::into_inner ](error: SendError<T>) -> (message: T)
    ensures
        message == error.0,
;

} // verus!
