//! The producer half of the channel.
//!
//! A sender can be cloned freely; every clone feeds the same queue. Each
//! handle keeps a local, advisory closed flag, set once one of its own send
//! attempts definitively failed. The flag is per-clone on purpose: a handle
//! can only know what it has personally observed, and another clone may
//! still succeed where this one failed. `is_closed` stays purely passive —
//! it reports only previously observed failures and never probes the
//! transport, so it can have a false negative but never a false positive.

use vstd::prelude::*;
use vstd::pervasive::unreached;
use crate::CommMsg;
use crate::transport::{transport_send, transport_clone};

verus! {

/// What a failed `send_all` reports: the value at some position of the input
/// did not get through, and everything after that position is handed back
/// untouched.
pub open spec fn send_all_failure<T>(all: Seq<T>, v: T, rest: Seq<T>) -> bool {
    exists|i: int| 0 <= i < all.len() && v == all[i] && rest == all.skip(i + 1)
}

/// The sending end of the channel.
#[verifier::reject_recursive_types(T)]
#[verifier::reject_recursive_types(E)]
pub struct Sender<T, E> {
    closed: bool,
    inner: std::sync::mpsc::Sender<CommMsg<T, E>>,
}

impl<T, E> Sender<T, E> {
    /// This handle's cached knowledge that the consumer end is gone.
    pub closed spec fn spec_closed(&self) -> bool {
        self.closed
    }

    /// Wraps a bare transport producer into a sender whose cache has seen no
    /// failure yet.
    pub fn from_old(v: std::sync::mpsc::Sender<CommMsg<T, E>>) -> (r: Sender<T, E>)
        ensures
            !r.spec_closed(),
    {
        Sender { closed: false, inner: v }
    }

    /// Returns the bare transport producer contained in this sender.
    pub fn into_inner(self) -> std::sync::mpsc::Sender<CommMsg<T, E>> {
        self.inner
    }

    /// Sends one message. Succeeds when the envelope could still be handed
    /// to a live consumer end; when the consumer is provably gone, the value
    /// comes back unchanged in `Err` and the local closed cache latches.
    pub fn send(&mut self, t: T) -> (r: Result<(), T>)
        ensures
            r matches Err(v) ==> v == t && final(self).spec_closed(),
            r is Ok ==> final(self).spec_closed() == old(self).spec_closed(),
            old(self).spec_closed() ==> final(self).spec_closed(),
    {
        match transport_send(&self.inner, CommMsg::Message(t)) {
            Ok(()) => Ok(()),
            Err(back) => {
                self.closed = true;
                match back {
                    CommMsg::Message(v) => Err(v),
                    // the transport hands back exactly the message envelope
                    // that was passed in, so no error envelope can come back
                    CommMsg::Error(_) => unreached(),
                }
            },
        }
    }

    /// Sends the values of `vals` in order, stopping at the first failure.
    /// On failure, `Err` carries the value that did not get through together
    /// with everything after it, untouched, so the caller can retry or
    /// report exactly what is missing.
    pub fn send_all(&mut self, vals: Vec<T>) -> (r: Result<(), (T, Vec<T>)>)
        ensures
            r is Err ==> final(self).spec_closed(),
            r matches Err((v, rest)) ==> send_all_failure(vals@, v, rest@),
            r is Ok ==> final(self).spec_closed() == old(self).spec_closed(),
            old(self).spec_closed() ==> final(self).spec_closed(),
    {
        let mut rest = vals;
        let ghost all = rest@;
        let ghost sent: int = 0;
        while rest.len() > 0
            invariant
                all == vals@,
                0 <= sent <= all.len(),
                rest@ == all.skip(sent),
                self.spec_closed() == old(self).spec_closed(),
            decreases rest.len(),
        {
            let v = rest.remove(0);
            proof {
                assert(all.skip(sent).remove(0) =~= all.skip(sent + 1));
            }
            match self.send(v) {
                Ok(()) => {
                    proof {
                        sent = sent + 1;
                    }
                },
                Err(v) => {
                    proof {
                        assert(send_all_failure(all, v, rest@)) by {
                            assert(0 <= sent < all.len() && v == all[sent] && rest@ == all.skip(
                                sent + 1,
                            ));
                        }
                    }
                    return Err((v, rest));
                },
            }
        }
        Ok(())
    }

    /// Closes the sending end gracefully: the handle is consumed, and once
    /// the last live sender is gone the receiver will observe a disconnect.
    pub fn close(self) {
    }

    /// Closes the sending end with a terminal error, consuming the handle.
    /// When the consumer is already gone there is nothing to deliver to, and
    /// the error value comes back unchanged in `Err`.
    pub fn error(self, e: E) -> (r: Result<(), E>)
        ensures
            r matches Err(back) ==> back == e,
    {
        match transport_send(&self.inner, CommMsg::Error(e)) {
            Ok(()) => Ok(()),
            Err(back) => match back {
                CommMsg::Error(v) => Err(v),
                // the transport hands back exactly the error envelope that
                // was passed in, so no message envelope can come back
                CommMsg::Message(_) => unreached(),
            },
        }
    }

    /// True once one of this handle's own send attempts has failed. Purely
    /// passive: it never probes the transport, so a fresh handle answers
    /// false even when the consumer is already gone.
    pub fn is_closed(&self) -> (r: bool)
        ensures
            r == self.spec_closed(),
    {
        self.closed
    }
}

impl<T, E> Clone for Sender<T, E> {
    /// Duplicates the producer handle; the clone feeds the same queue and
    /// starts from a copy of this handle's closed cache, tracking its own
    /// failures independently from then on.
    fn clone(&self) -> (r: Self)
        ensures
            r.spec_closed() == self.spec_closed(),
    {
        Sender { closed: self.closed, inner: transport_clone(&self.inner) }
    }
}

} // verus!
