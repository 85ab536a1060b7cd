use async_as_symmetric_coroutines::handoff::{Handoff, Resume};
use async_as_symmetric_coroutines::{
    Coroutine, ResumeError, Suspender, TryYieldError, WithInputError,
};
use flume::{RecvError, SendError};
use std::cell::Cell;
use std::future::{ready, Ready};

fn take_suspender(_myself: Coroutine<u16>, suspender: Suspender<u16>) -> Ready<Suspender<u16>> {
    ready(suspender)
}

fn a_suspender() -> (Coroutine<u16>, Suspender<u16>) {
    let (handle, suspender) = Coroutine::new(take_suspender);
    (handle, pollster::block_on(suspender))
}

#[test]
fn a_resume_begins_by_sending_the_input_to_its_target() {
    let (handle, _suspender) = a_suspender();
    match handle.resume(41) {
        Resume::Sending { target, input } => {
            assert!(*target == handle);
            assert_eq!(input, 41);
        }
        Resume::Finished { .. } => panic!("nothing was sent yet"),
    }
}

#[test]
fn a_resume_ends_well_when_the_input_was_taken() {
    match Resume::<u8>::sent(Ok(())) {
        Resume::Finished { result } => assert_eq!(result, Ok(())),
        Resume::Sending { .. } => panic!("the send is over"),
    }
}

#[test]
fn a_resume_that_fails_gives_the_input_back() {
    match Resume::sent(Err(SendError(String::from("undelivered")))) {
        Resume::Finished { result } => {
            assert_eq!(
                result,
                Err(ResumeError::Unresumable { input: String::from("undelivered") })
            );
        }
        Resume::Sending { .. } => panic!("the send is over"),
    }
}

#[test]
fn a_handoff_begins_by_resuming_the_other_coroutine_with_the_value() {
    let (_handle, suspender) = a_suspender();
    let (other, _other_suspender) = a_suspender();
    match suspender.try_yield_to(&other, 5) {
        Handoff::Resuming { peer: Resume::Sending { target, input }, suspender: parked } => {
            assert!(*target == other);
            assert_eq!(input, 5);
            assert!(*parked == suspender);
        }
        _ => panic!("the other coroutine has not been resumed yet"),
    }
}

#[test]
fn a_handoff_suspends_once_the_other_coroutine_took_the_value() {
    let (_handle, suspender) = a_suspender();
    match Handoff::<u16, u8>::peer_resumed(&suspender, Ok(())) {
        Handoff::Suspended { suspender: parked } => assert!(*parked == suspender),
        _ => panic!("the coroutine is to be suspended"),
    }
}

#[test]
fn a_handoff_to_a_lost_coroutine_ends_with_the_value_and_without_a_wait() {
    let (_handle, suspender) = a_suspender();
    let lost = Err(ResumeError::Unresumable { input: 77_u8 });
    match Handoff::peer_resumed(&suspender, lost) {
        Handoff::Finished { result } => {
            assert_eq!(result, Err(TryYieldError::OtherUnresumable { value: 77 }));
        }
        _ => panic!("the handoff is over"),
    }
}

#[test]
fn a_handoff_returns_the_value_it_was_resumed_with() {
    match Handoff::<u16, u8>::received(Ok(6)) {
        Handoff::Finished { result } => assert_eq!(result, Ok(6)),
        _ => panic!("the handoff is over"),
    }
}

#[test]
fn a_handoff_whose_wait_fails_is_canceled() {
    match Handoff::<u16, u8>::received(Err(RecvError::Disconnected)) {
        Handoff::Finished { result } => assert_eq!(result, Err(TryYieldError::Canceled)),
        _ => panic!("the handoff is over"),
    }
}

#[test]
fn yield_to_hands_out_the_resume_value() {
    let outcome: Result<u16, TryYieldError<u8>> = Ok(6);
    assert_eq!(Suspender::<u16>::yield_to(outcome), 6);
}

#[test]
fn a_start_whose_wait_fails_is_canceled_and_makes_no_body() {
    let made = Cell::new(false);
    let (_handle, startup) = Coroutine::with_input(|_myself, _suspender, input: u8| {
        made.set(true);
        ready(input)
    });
    let started = startup.begin(Err(RecvError::Disconnected));
    assert_eq!(started.map(|_body| ()), Err(WithInputError::Canceled));
    assert!(!made.get());
}

#[test]
fn a_start_with_an_input_makes_the_body_with_it() {
    let (handle, startup) =
        Coroutine::with_input(|myself, _suspender, input: u8| ready((myself, input + 1)));
    let body = startup.begin(Ok(20)).map_err(|_error| ()).unwrap();
    let (myself, output) = pollster::block_on(body);
    assert_eq!(output, 21);
    assert!(myself == handle);
}

#[test]
fn a_start_runs_the_body_with_the_handle_it_is_given() {
    let (handle, startup) =
        Coroutine::with_input(|myself, _suspender, input: u8| ready((myself, input)));
    let given = handle.clone();
    let (myself, input) = pollster::block_on(startup.begin_with(Some(given), 3));
    assert_eq!(input, 3);
    assert!(myself == handle);
}

#[test]
fn a_start_without_any_handle_left_gives_the_body_one_that_resumes_nothing() {
    let (handle, startup) =
        Coroutine::with_input(|myself, _suspender, input: u8| ready((myself, input)));
    let (myself, input) = pollster::block_on(startup.begin_with(None, 3));
    assert_eq!(input, 3);
    assert!(myself != handle);
    assert_eq!(
        pollster::block_on(myself.sender().send_async(9)).map_err(SendError::into_inner),
        Err(9)
    );
}

#[test]
fn a_start_after_the_last_handle_was_dropped_still_runs_the_body() {
    let (handle, startup) =
        Coroutine::with_input(|myself, suspender, input: u8| ready((myself, suspender, input)));
    drop(handle);
    let body = startup.begin(Ok(4)).map_err(|_error| ()).unwrap();
    let (myself, suspender, input) = pollster::block_on(body);
    assert_eq!(input, 4);
    assert!(pollster::block_on(myself.sender().send_async(1)).is_err());
    assert_eq!(
        pollster::block_on(suspender.receiver().recv_async()),
        Err(RecvError::Disconnected)
    );
}
