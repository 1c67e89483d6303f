//! The channel's laws, proved over the receiver's state machine.
//!
//! The transport serializes envelopes into a FIFO order; what the receiver
//! makes of that serialized order is this library's own logic. These proof
//! functions state it: feeding an open receiver the envelopes for a sequence
//! of values followed by a terminal event yields exactly those values in
//! order and then nothing, closing is latched, and the held error can be
//! taken exactly once.

use vstd::prelude::*;
use crate::CommMsg;
use crate::receiver::{ReceiverView, wf, step, step_yield, taken};
use crate::transport::Pull;

verus! {

/// The receiver's state after absorbing a sequence of transport outcomes,
/// one by one.
pub open spec fn run<T, E>(s: ReceiverView<E>, ps: Seq<Pull<T, E>>) -> ReceiverView<E>
    decreases ps.len(),
{
    if ps.len() == 0 {
        s
    } else {
        run(step(s, ps[0]), ps.skip(1))
    }
}

/// What a sequence of receive calls yields while absorbing a sequence of
/// transport outcomes, one outcome per call.
pub open spec fn run_yield<T, E>(s: ReceiverView<E>, ps: Seq<Pull<T, E>>) -> Seq<Option<T>>
    decreases ps.len(),
{
    if ps.len() == 0 {
        Seq::empty()
    } else {
        seq![step_yield::<T, E>(s, ps[0])] + run_yield(step(s, ps[0]), ps.skip(1))
    }
}

/// The envelopes a producer sends for a sequence of values.
pub open spec fn message_pulls<T, E>(vs: Seq<T>) -> Seq<Pull<T, E>> {
    vs.map(|i: int, v: T| Pull::Envelope(CommMsg::Message(v)))
}

/// What the receiver observes when the values `vs` are sent and then every
/// sender is dropped: their envelopes, then a disconnect.
pub open spec fn graceful_feed<T, E>(vs: Seq<T>) -> Seq<Pull<T, E>> {
    message_pulls::<T, E>(vs).push(Pull::Disconnected)
}

/// What the receiver observes when the values `vs` are sent and the channel
/// is then terminated with the error `e`.
pub open spec fn errored_feed<T, E>(vs: Seq<T>, e: E) -> Seq<Pull<T, E>> {
    message_pulls::<T, E>(vs).push(Pull::Envelope(CommMsg::Error(e)))
}

/// Receive calls that yield the values `vs` in order and then nothing.
pub open spec fn yielded<T>(vs: Seq<T>) -> Seq<Option<T>> {
    vs.map(|i: int, v: T| Some(v)).push(None)
}

/// Receive calls that yield nothing, `n` times over.
pub open spec fn no_yields<T>(n: nat) -> Seq<Option<T>> {
    Seq::new(n, |i: int| None::<T>)
}

/// For every sequence of values sent before a graceful close: an open
/// receiver yields exactly those values in order, then nothing, and ends
/// closed with no error to report.
pub proof fn lemma_graceful_drain<T, E>(s: ReceiverView<E>, vs: Seq<T>)
    requires
        wf(s),
        !s.closed,
    ensures
        run_yield(s, graceful_feed::<T, E>(vs)) == yielded(vs),
        run(s, graceful_feed::<T, E>(vs)) == (ReceiverView::<E> {
            closed: true,
            errored: false,
            error: None,
        }),
    decreases vs.len(),
{
    let ps = graceful_feed::<T, E>(vs);
    if vs.len() == 0 {
        reveal_with_fuel(run, 2);
        reveal_with_fuel(run_yield, 2);
        assert(run_yield(s, ps) =~= yielded(vs));
    } else {
        assert(ps[0] == Pull::Envelope::<T, E>(CommMsg::Message(vs[0])));
        assert(ps.skip(1) =~= graceful_feed::<T, E>(vs.skip(1)));
        lemma_graceful_drain::<T, E>(s, vs.skip(1));
        assert(run_yield(s, ps) =~= yielded(vs));
    }
}

/// For every sequence of values sent before an error termination: an open
/// receiver yields exactly those values in order, then nothing, and ends
/// closed holding exactly that error.
pub proof fn lemma_errored_drain<T, E>(s: ReceiverView<E>, vs: Seq<T>, e: E)
    requires
        wf(s),
        !s.closed,
    ensures
        run_yield(s, errored_feed::<T, E>(vs, e)) == yielded(vs),
        run(s, errored_feed::<T, E>(vs, e)) == (ReceiverView { closed: true, errored: true, error: Some(e) }),
    decreases vs.len(),
{
    let ps = errored_feed::<T, E>(vs, e);
    if vs.len() == 0 {
        reveal_with_fuel(run, 2);
        reveal_with_fuel(run_yield, 2);
        assert(run_yield(s, ps) =~= yielded(vs));
    } else {
        assert(ps[0] == Pull::Envelope::<T, E>(CommMsg::Message(vs[0])));
        assert(ps.skip(1) =~= errored_feed::<T, E>(vs.skip(1), e));
        lemma_errored_drain::<T, E>(s, vs.skip(1), e);
        assert(run_yield(s, ps) =~= yielded(vs));
    }
}

/// Closing is latched: a closed receiver is left exactly as it is by any
/// further sequence of transport outcomes and yields nothing for each of
/// them, so `is_closed` keeps answering true forever.
pub proof fn lemma_closed_is_latched<T, E>(s: ReceiverView<E>, ps: Seq<Pull<T, E>>)
    requires
        s.closed,
    ensures
        run(s, ps) == s,
        run_yield(s, ps) == no_yields::<T>(ps.len()),
    decreases ps.len(),
{
    if ps.len() == 0 {
        assert(run_yield(s, ps) =~= no_yields::<T>(ps.len()));
    } else {
        lemma_closed_is_latched::<T, E>(s, ps.skip(1));
        assert(run_yield(s, ps) =~= no_yields::<T>(ps.len()));
    }
}

/// Taking the error is one-shot: the take yields the held error and empties
/// the slot, so a second take straight after finds nothing and reports
/// nothing, while closedness stays exactly as it was.
pub proof fn lemma_take_error_one_shot<E>(s: ReceiverView<E>)
    ensures
        taken(s).error is None,
        !taken(s).errored,
        taken(taken(s)) == taken(s),
        taken(s).closed == s.closed,
        wf(taken(s)),
{
}

} // verus!
