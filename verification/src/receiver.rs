//! The consumer half of the channel.
//!
//! The receiver is a three-state machine. It starts open; the first terminal
//! event it observes — an error envelope or a transport disconnect — latches
//! it closed, with or without an error, and from then on no receive call
//! touches the transport again. The spec function [`step`] is the
//! mathematical model of that machine: every receive operation promises that
//! its effect equals `step` applied to some transport outcome.

use vstd::prelude::*;
use crate::CommMsg;
use crate::transport::{Pull, transport_try_pull, transport_pull_block};

verus! {

/// The abstract state of a receiver: everything of it that the channel's
/// contracts speak about.
pub struct ReceiverView<E> {
    /// Latched: once the receiver has observed termination, this never
    /// reverts.
    pub closed: bool,
    /// True while a terminal error has been observed and not yet taken.
    pub errored: bool,
    /// The held error value, populated at most once and taken at most once.
    pub error: Option<E>,
}

/// Well-formedness of a receiver state: an error can only have been observed
/// on a closed channel, and the error slot is full exactly while `errored`
/// reports it.
pub open spec fn wf<E>(v: ReceiverView<E>) -> bool {
    &&& v.errored ==> v.closed
    &&& v.errored <==> v.error is Some
}

impl<E> ReceiverView<E> {
    /// The state of a freshly created receiver: open, no error.
    pub open spec fn initial() -> ReceiverView<E> {
        ReceiverView { closed: false, errored: false, error: None }
    }
}

/// How one transport outcome moves the receiver's state. A closed receiver
/// ignores every outcome; an open one stays open on a message or an empty
/// queue, closes gracefully on a disconnect, and closes holding the error on
/// an error envelope.
pub open spec fn step<T, E>(s: ReceiverView<E>, p: Pull<T, E>) -> ReceiverView<E> {
    if s.closed {
        s
    } else {
        match p {
            Pull::Envelope(CommMsg::Message(_)) => s,
            Pull::Envelope(CommMsg::Error(e)) => ReceiverView {
                closed: true,
                errored: true,
                error: Some(e),
            },
            Pull::Empty => s,
            Pull::Disconnected => ReceiverView { closed: true, ..s },
        }
    }
}

/// The value a receive call yields for one transport outcome: the payload of
/// a message envelope, and nothing in every other case.
pub open spec fn step_yield<T, E>(s: ReceiverView<E>, p: Pull<T, E>) -> Option<T> {
    if s.closed {
        None
    } else {
        match p {
            Pull::Envelope(CommMsg::Message(m)) => Some(m),
            _ => None,
        }
    }
}

/// The state left behind by `take_error`: the error slot is emptied and no
/// longer reported, while closedness is untouched.
pub open spec fn taken<E>(s: ReceiverView<E>) -> ReceiverView<E> {
    ReceiverView { errored: false, error: None, ..s }
}

/// The receiving end of the channel.
#[verifier::reject_recursive_types(T)]
#[verifier::reject_recursive_types(E)]
pub struct Receiver<T, E> {
    closed: bool,
    errored: bool,
    error: Option<E>,
    inner: std::sync::mpsc::Receiver<CommMsg<T, E>>,
}

impl<T, E> View for Receiver<T, E> {
    type V = ReceiverView<E>;

    closed spec fn view(&self) -> ReceiverView<E> {
        ReceiverView { closed: self.closed, errored: self.errored, error: self.error }
    }
}

impl<T, E> Receiver<T, E> {
    /// Wraps a bare transport consumer into a fresh, open receiver.
    pub fn from_old(v: std::sync::mpsc::Receiver<CommMsg<T, E>>) -> (r: Receiver<T, E>)
        ensures
            r@ == ReceiverView::<E>::initial(),
            wf(r@),
    {
        Receiver { closed: false, errored: false, error: None, inner: v }
    }

    /// Returns the bare transport consumer along with the held error, which
    /// is present exactly when the channel was closed by an error whose value
    /// was not yet taken.
    pub fn into_inner(self) -> (r: (std::sync::mpsc::Receiver<CommMsg<T, E>>, Option<E>))
        ensures
            r.1 == self@.error,
    {
        (self.inner, self.error)
    }

    /// Absorbs one transport outcome into the state machine; this is the
    /// verified remainder of every receive call, exact for each outcome.
    fn absorb(&mut self, p: Pull<T, E>) -> (r: Option<T>)
        requires
            wf(old(self)@),
            !old(self)@.closed,
        ensures
            wf(final(self)@),
            final(self)@ == step(old(self)@, p),
            r == step_yield::<T, E>(old(self)@, p),
    {
        match p {
            Pull::Envelope(CommMsg::Message(m)) => Some(m),
            Pull::Envelope(CommMsg::Error(e)) => {
                self.error = Some(e);
                self.closed = true;
                self.errored = true;
                None
            },
            Pull::Empty => None,
            Pull::Disconnected => {
                self.closed = true;
                None
            },
        }
    }

    /// Returns the next message without blocking.
    ///
    /// A closed receiver yields nothing at once, without touching the
    /// transport. An open one pulls once: a message envelope is yielded with
    /// the state unchanged; an empty queue yields nothing and changes
    /// nothing; an error envelope or a disconnect yields nothing and latches
    /// the receiver closed. The effect is exactly `step` of some transport
    /// outcome.
    pub fn recv(&mut self) -> (r: Option<T>)
        requires
            wf(old(self)@),
        ensures
            wf(final(self)@),
            exists|p: Pull<T, E>|
                final(self)@ == #[trigger] step(old(self)@, p) && r == step_yield::<T, E>(
                    old(self)@,
                    p,
                ),
            old(self)@.closed ==> final(self)@ == old(self)@ && r is None,
            r is Some ==> final(self)@ == old(self)@ && !old(self)@.closed,
            old(self)@.closed ==> final(self)@.closed,
            old(self)@.errored ==> final(self)@.errored,
            old(self)@.error is Some ==> final(self)@.error == old(self)@.error,
    {
        if self.closed {
            proof {
                assert(final(self)@ == step(old(self)@, Pull::Empty::<T, E>));
            }
            return None;
        }
        let p = transport_try_pull(&self.inner);
        self.absorb(p)
    }

    /// Returns the next message, blocking while the queue is empty and the
    /// channel is still open.
    ///
    /// Same contract as [`Self::recv`], except that the empty-queue outcome
    /// cannot occur: when this call yields nothing, the receiver is closed.
    pub fn recv_block(&mut self) -> (r: Option<T>)
        requires
            wf(old(self)@),
        ensures
            wf(final(self)@),
            exists|p: Pull<T, E>|
                final(self)@ == #[trigger] step(old(self)@, p) && r == step_yield::<T, E>(
                    old(self)@,
                    p,
                ),
            r is None ==> final(self)@.closed,
            old(self)@.closed ==> final(self)@ == old(self)@ && r is None,
            r is Some ==> final(self)@ == old(self)@ && !old(self)@.closed,
            old(self)@.errored ==> final(self)@.errored,
            old(self)@.error is Some ==> final(self)@.error == old(self)@.error,
    {
        if self.closed {
            proof {
                assert(final(self)@ == step(old(self)@, Pull::Disconnected::<T, E>));
            }
            return None;
        }
        let p = transport_pull_block(&self.inner);
        self.absorb(p)
    }

    /// True while the channel was closed by an error whose value has not yet
    /// been taken.
    pub fn has_error(&self) -> (r: bool)
        ensures
            r == self@.errored,
    {
        self.errored
    }

    /// Removes and returns the held error. The take is one-shot: afterwards
    /// the error slot is empty and no longer reported, while the channel
    /// stays as closed as it was.
    pub fn take_error(&mut self) -> (r: Option<E>)
        requires
            wf(old(self)@),
        ensures
            wf(final(self)@),
            r == old(self)@.error,
            final(self)@ == taken(old(self)@),
    {
        self.errored = false;
        self.error.take()
    }

    /// True once the receiver has observed termination, with or without an
    /// error; latched, so repeated calls keep answering true.
    pub fn is_closed(&self) -> (r: bool)
        ensures
            r == self@.closed,
    {
        self.closed
    }
}

} // verus!
