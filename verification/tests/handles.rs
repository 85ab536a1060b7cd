use async_as_symmetric_coroutines::{Coroutine, Suspender};
use futures_util::future::join;
use std::future::{ready, Ready};

fn idle(_myself: Coroutine<u8>, _suspender: Suspender<u8>) -> Ready<()> {
    ready(())
}

#[test]
fn clones_of_a_handle_are_equal() {
    let (handle, _body) = Coroutine::new(idle);
    let first = handle.clone();
    let second = handle.clone();
    assert!(first == handle);
    assert!(handle == first);
    assert!(first == second);
    assert!(second.clone() == first);
}

#[test]
fn handles_of_unrelated_coroutines_differ() {
    let (one, _one_body) = Coroutine::new(idle);
    let (other, _other_body) = Coroutine::new(idle);
    assert!(one != other);
    assert!(other != one);
    assert!(one.clone() != other.clone());
    assert!(one == one.clone());
}

#[test]
fn the_body_gets_a_handle_of_its_own_coroutine() {
    let (handle, myself) =
        Coroutine::new(|myself: Coroutine<u8>, _suspender: Suspender<u8>| ready(myself));
    let myself = pollster::block_on(myself);
    assert!(myself == handle);
}

#[test]
fn the_body_gets_the_suspender_of_its_own_coroutine() {
    let (handle, suspender) =
        Coroutine::new(|_myself: Coroutine<u8>, suspender: Suspender<u8>| ready(suspender));
    let suspender = pollster::block_on(suspender);
    assert!(handle.sender().try_send(1).is_err());
    let (sent, received) = pollster::block_on(join(
        handle.sender().send_async(9),
        suspender.receiver().recv_async(),
    ));
    assert_eq!(sent, Ok(()));
    assert_eq!(received, Ok(9));
}

#[test]
fn a_suspender_is_equal_to_itself_only() {
    let (_one_handle, one) =
        Coroutine::new(|_myself: Coroutine<u8>, suspender: Suspender<u8>| ready(suspender));
    let (_other_handle, other) =
        Coroutine::new(|_myself: Coroutine<u8>, suspender: Suspender<u8>| ready(suspender));
    let one = pollster::block_on(one);
    let other = pollster::block_on(other);
    assert!(one == one);
    assert!(one != other);
}

#[test]
fn the_channel_of_a_coroutine_holds_nothing() {
    let (handle, _body) = Coroutine::new(idle);
    assert_eq!(handle.sender().capacity(), Some(0));
    let (handle, _startup) =
        Coroutine::with_input(|_myself: Coroutine<u8>, _suspender, input: u8| ready(input));
    assert_eq!(handle.sender().capacity(), Some(0));
}

#[test]
fn an_unstarted_coroutine_holds_no_handle_of_itself() {
    let (handle, _startup) =
        Coroutine::with_input(|_myself: Coroutine<u8>, _suspender, input: u8| ready(input));
    assert_eq!(handle.sender().sender_count(), 1);
    let copy = handle.clone();
    assert_eq!(handle.sender().sender_count(), 2);
    drop(copy);
    assert_eq!(handle.sender().sender_count(), 1);
}
