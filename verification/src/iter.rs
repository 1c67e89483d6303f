//! Iteration adapters over a receiver.
//!
//! An iterator yields the channel's values and stops the first time the
//! wrapped receive call yields nothing. The non-blocking flavor also stops
//! on a momentarily empty queue, without closing anything, so iteration can
//! be resumed later; the blocking flavor stops only once the channel is
//! closed. The iterator owns the receiver while it runs; [`ReceiverIterator::into_receiver`]
//! hands it back, so a drained non-blocking pass can be followed by a fresh
//! one over the same, still-open receiver.

use vstd::prelude::*;
use crate::receiver::{Receiver, ReceiverView, wf, step, step_yield};
use crate::transport::Pull;

verus! {

/// An iterator over received items, in a blocking or a non-blocking flavor
/// fixed at construction.
#[verifier::reject_recursive_types(T)]
#[verifier::reject_recursive_types(E)]
pub struct ReceiverIterator<T, E> {
    receiver: Receiver<T, E>,
    blocking: bool,
}

impl<T, E> View for ReceiverIterator<T, E> {
    type V = ReceiverView<E>;

    closed spec fn view(&self) -> ReceiverView<E> {
        self.receiver@
    }
}

impl<T, E> ReceiverIterator<T, E> {
    /// Whether each step of this iterator waits for the next envelope.
    pub closed spec fn spec_blocking(&self) -> bool {
        self.blocking
    }

    /// Yields the next message: one receive call on the wrapped receiver,
    /// blocking or not according to the iterator's flavor. Yielding nothing
    /// means the channel is closed when the flavor is blocking; the
    /// non-blocking flavor also yields nothing on a momentarily empty queue,
    /// leaving every state unchanged.
    pub fn next(&mut self) -> (r: Option<T>)
        requires
            wf(old(self)@),
        ensures
            wf(final(self)@),
            final(self).spec_blocking() == old(self).spec_blocking(),
            exists|p: Pull<T, E>|
                final(self)@ == #[trigger] step(old(self)@, p) && r == step_yield::<T, E>(
                    old(self)@,
                    p,
                ),
            old(self)@.closed ==> final(self)@ == old(self)@ && r is None,
            r is Some ==> final(self)@ == old(self)@ && !old(self)@.closed,
            old(self).spec_blocking() && r is None ==> final(self)@.closed,
            old(self)@.errored ==> final(self)@.errored,
            old(self)@.error is Some ==> final(self)@.error == old(self)@.error,
    {
        if self.blocking {
            self.receiver.recv_block()
        } else {
            self.receiver.recv()
        }
    }

    /// Dissolves the iterator and hands the receiver back, in whatever state
    /// iteration left it; a still-open receiver can be iterated anew.
    pub fn into_receiver(self) -> (r: Receiver<T, E>)
        ensures
            r@ == self@,
    {
        self.receiver
    }
}

impl<T, E> Receiver<T, E> {
    /// Returns a non-blocking iterator over the messages in this receiver.
    /// It takes the receiver along; `into_receiver` gives it back.
    pub fn iter(self) -> (it: ReceiverIterator<T, E>)
        ensures
            it@ == self@,
            !it.spec_blocking(),
    {
        ReceiverIterator { blocking: false, receiver: self }
    }

    /// Returns a blocking iterator over the messages in this receiver.
    /// It takes the receiver along; `into_receiver` gives it back.
    pub fn blocking_iter(self) -> (it: ReceiverIterator<T, E>)
        ensures
            it@ == self@,
            it.spec_blocking(),
    {
        ReceiverIterator { blocking: true, receiver: self }
    }

    /// Returns a non-blocking iterator that consumes this receiver for good.
    pub fn into_iter(self) -> (it: ReceiverIterator<T, E>)
        ensures
            it@ == self@,
            !it.spec_blocking(),
    {
        ReceiverIterator { blocking: false, receiver: self }
    }

    /// Returns a blocking iterator that consumes this receiver for good.
    pub fn into_blocking_iter(self) -> (it: ReceiverIterator<T, E>)
        ensures
            it@ == self@,
            it.spec_blocking(),
    {
        ReceiverIterator { blocking: true, receiver: self }
    }
}

} // verus!
