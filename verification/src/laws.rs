//! What holds of every resume and every handoff, whatever the values and
//! whoever the coroutines.
//!
//! The channel itself is outside the library. What a statement here assumes
//! of it is written into the statement: a send that is accepted hands the
//! waiting side the message that was sent, and a send that fails hands that
//! message back.

use crate::coroutine::{Coroutine, Suspender};
use crate::error::{ResumeError, TryYieldError};
use crate::handoff::{Handoff, Resume};
use flume::{RecvError, SendError};
use vstd::prelude::*;
use vstd::std_specs::cmp::PartialEqSpec;

verus! {

/// The messages that a coroutine asks to be sent to `other` when it yields
/// `values` to it, one handoff after the other.
pub open spec fn sent_in_turn<'a, ResumeValue, Yield>(
    yielder: &'a Suspender<ResumeValue>,
    other: &'a Coroutine<Yield>,
    values: Seq<Yield>,
) -> Seq<Yield> {
    Seq::new(values.len(), |i: int| yielder.yielding(other, values[i])->peer->input)
}

/// What the handoffs of a coroutine return, one after the other, when their
/// waits receive `arrivals` in this order.
pub open spec fn returned_in_turn<ResumeValue, Yield>(arrivals: Seq<ResumeValue>) -> Seq<
    Result<ResumeValue, TryYieldError<Yield>>,
> {
    Seq::new(
        arrivals.len(),
        |i: int| Handoff::<'_, ResumeValue, Yield>::after_receive(Ok(arrivals[i]))->result,
    )
}

/// A value that is yielded arrives as it was given. The handoff of the
/// yielding coroutine asks for `value` itself to be sent to `other`, and once
/// that is accepted the yielding coroutine is suspended. The coroutine on the
/// other side, waiting in a handoff of its own, receives what was sent and
/// gets `value` as the result of that handoff. Nothing distinguishes the two
/// coroutines, so the same holds of the way back.
pub proof fn yielded_value_arrives_unchanged<'a, ResumeValue, Yield, PeerYield>(
    yielder: &'a Suspender<ResumeValue>,
    other: &'a Coroutine<Yield>,
    value: Yield,
)
    ensures
        ({
            &&& yielder.yielding(other, value) matches Handoff::Resuming {
                peer: Resume::Sending { target, input },
                suspender,
            }
            &&& target == other
            &&& input == value
            &&& Resume::<'a, Yield>::after_send(Ok(())) matches Resume::Finished { result: resumed }
            &&& Handoff::after_resume(suspender, resumed) matches Handoff::Suspended {
                suspender: parked,
            }
            &&& parked == yielder
            &&& Handoff::<'a, Yield, PeerYield>::after_receive(Ok(input)) matches Handoff::Finished {
                result: arrived,
            }
            &&& arrived == Ok::<Yield, TryYieldError<PeerYield>>(value)
        }),
{
}

/// Values that are yielded one after the other arrive unchanged and in their
/// order. When a coroutine yields `values` to `other` in turn, and the waits
/// of the coroutine on the other side receive the messages in the order in
/// which they were sent, then the handoffs of that coroutine return `values`,
/// each in its place.
pub proof fn yielded_values_arrive_in_order<'a, ResumeValue, Yield, PeerYield>(
    yielder: &'a Suspender<ResumeValue>,
    other: &'a Coroutine<Yield>,
    values: Seq<Yield>,
)
    ensures
        returned_in_turn::<Yield, PeerYield>(sent_in_turn(yielder, other, values)) == Seq::new(
            values.len(),
            |i: int| Ok::<Yield, TryYieldError<PeerYield>>(values[i]),
        ),
{
    assert(returned_in_turn::<Yield, PeerYield>(sent_in_turn(yielder, other, values))
        =~= Seq::new(values.len(), |i: int| Ok::<Yield, TryYieldError<PeerYield>>(values[i])));
}

/// A coroutine that cannot be resumed gives the input back. When the send of
/// a resume fails and hands back the message it was given, the resume ends
/// with an error that carries `input` itself.
pub proof fn failed_resume_returns_input<'a, Input>(handle: &'a Coroutine<Input>, input: Input)
    ensures
        ({
            &&& handle.resuming(input) matches Resume::Sending { input: message, .. }
            &&& Resume::<'a, Input>::after_send(Err(SendError(message))) matches Resume::Finished {
                result,
            }
            &&& result == Err::<(), ResumeError<Input>>(ResumeError::Unresumable { input })
        }),
{
}

/// A handoff to a coroutine that is gone fails at once, with the value. When
/// the other coroutine cannot be resumed, the handoff ends with an error that
/// carries `value` itself, and the yielding coroutine is never suspended: no
/// wait is asked for.
pub proof fn lost_peer_returns_value<'a, ResumeValue, Yield>(
    yielder: &'a Suspender<ResumeValue>,
    other: &'a Coroutine<Yield>,
    value: Yield,
)
    ensures
        ({
            &&& yielder.yielding(other, value) matches Handoff::Resuming {
                peer: Resume::Sending { input: message, .. },
                suspender,
            }
            &&& Resume::<'a, Yield>::after_send(Err(SendError(message))) matches Resume::Finished {
                result: resumed,
            }
            &&& Handoff::after_resume(suspender, resumed) matches Handoff::Finished { result }
            &&& result == Err::<ResumeValue, TryYieldError<Yield>>(
                TryYieldError::OtherUnresumable { value },
            )
        }),
{
}

/// A handoff suspends its coroutine once at most. It asks for a wait exactly
/// when the other coroutine took the value, and whatever the wait brings ends
/// the handoff: no second wait follows.
pub proof fn handoff_waits_once_at_most<'a, ResumeValue, Yield>(
    yielder: &'a Suspender<ResumeValue>,
    resumed: Result<(), ResumeError<Yield>>,
    received: Result<ResumeValue, RecvError>,
)
    ensures
        Handoff::after_resume(yielder, resumed) is Suspended <==> resumed is Ok,
        Handoff::after_resume(yielder, resumed) is Finished <==> resumed is Err,
        Handoff::<'a, ResumeValue, Yield>::after_receive(received) is Finished,
{
}

/// A suspended coroutine whose handles are all gone is canceled. When the
/// wait of a handoff fails, the handoff ends with the cancellation error,
/// whatever had been yielded.
pub proof fn lost_handles_cancel<'a, ResumeValue, Yield>(failure: RecvError)
    ensures
        Handoff::<'a, ResumeValue, Yield>::after_receive(Err(failure)) matches Handoff::Finished {
            result,
        } && result == Err::<ResumeValue, TryYieldError<Yield>>(TryYieldError::Canceled),
{
}

/// Copies of one handle are equal. Whatever `clone` makes of a handle is
/// equal to the handle, and to whatever else `clone` makes of it.
pub proof fn copies_of_a_handle_are_equal<Input>(
    handle: Coroutine<Input>,
    first: Coroutine<Input>,
    second: Coroutine<Input>,
)
    requires
        cloned(handle, first),
        cloned(handle, second),
    ensures
        first.eq_spec(&handle),
        handle.eq_spec(&first),
        first.eq_spec(&second),
{
}

/// Handles are compared by the coroutine they address, so their equality is
/// an equivalence: it is reflexive, symmetric and transitive.
pub proof fn equality_of_handles_is_an_equivalence<Input>(
    handle: Coroutine<Input>,
    other: Coroutine<Input>,
    third: Coroutine<Input>,
)
    ensures
        handle.eq_spec(&handle),
        handle.eq_spec(&other) == other.eq_spec(&handle),
        handle.eq_spec(&other) && other.eq_spec(&third) ==> handle.eq_spec(&third),
{
}

} // verus!
