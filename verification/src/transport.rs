//! The binding to the underlying transport: an unbounded multi-producer,
//! single-consumer FIFO queue of envelopes, provided by `std::sync::mpsc`.
//!
//! Everything the library assumes about the transport is stated here, on a
//! small set of trusted wrappers. What an outcome means for the channel's
//! state is decided by verified code in the rest of the crate; nothing here
//! promises which outcome a call takes, since that depends on what the peer
//! end has done in the meantime.

use vstd::prelude::*;
use crate::CommMsg;

verus! {

#[verifier::external_type_specification]
#[verifier::external_body]
#[verifier::reject_recursive_types(T)]
pub struct ExMpscSender<T>(std::sync::mpsc::Sender<T>);

#[verifier::external_type_specification]
#[verifier::external_body]
#[verifier::reject_recursive_types(T)]
pub struct ExMpscReceiver<T>(std::sync::mpsc::Receiver<T>);

/// The outcome of one attempt to pull an envelope off the transport.
pub enum Pull<T, E> {
    /// An envelope was waiting in the queue.
    Envelope(CommMsg<T, E>),
    /// The queue was empty but some producer is still alive.
    Empty,
    /// The queue was empty and every producer is gone.
    Disconnected,
}

/// Relies on `std::sync::mpsc::channel`: returns a connected
/// producer/consumer pair over a fresh unbounded queue.
#[verifier::external_body]
pub(crate) fn transport_pair<T, E>() -> (
    std::sync::mpsc::Sender<CommMsg<T, E>>,
    std::sync::mpsc::Receiver<CommMsg<T, E>>,
) {
    std::sync::mpsc::channel()
}

/// Relies on `std::sync::mpsc::Sender::clone`: the clone is an independent
/// producer handle feeding the same queue.
#[verifier::external_body]
pub(crate) fn transport_clone<M>(s: &std::sync::mpsc::Sender<M>) -> std::sync::mpsc::Sender<M> {
    s.clone()
}

/// Relies on `std::sync::mpsc::Sender::send`: it fails only when the consumer
/// end is gone, and the `SendError` it then returns carries the unsent value
/// back unchanged.
#[verifier::external_body]
pub(crate) fn transport_send<T, E>(
    s: &std::sync::mpsc::Sender<CommMsg<T, E>>,
    m: CommMsg<T, E>,
) -> (r: Result<(), CommMsg<T, E>>)
    ensures
        r matches Err(back) ==> back == m,
{
    s.send(m).map_err(|e| e.0)
}

/// Relies on `std::sync::mpsc::Receiver::try_recv`: without blocking, it
/// yields a queued envelope, or reports an empty queue, or reports that
/// every producer is gone. Which outcome comes back depends on the peers,
/// so nothing is promised about it.
#[verifier::external_body]
pub(crate) fn transport_try_pull<T, E>(
    r: &std::sync::mpsc::Receiver<CommMsg<T, E>>,
) -> Pull<T, E> {
    match r.try_recv() {
        Ok(m) => Pull::Envelope(m),
        Err(std::sync::mpsc::TryRecvError::Empty) => Pull::Empty,
        Err(std::sync::mpsc::TryRecvError::Disconnected) => Pull::Disconnected,
    }
}

/// Relies on `std::sync::mpsc::Receiver::recv`: it blocks until an envelope
/// arrives or every producer is gone, so it never reports an empty queue.
#[verifier::external_body]
pub(crate) fn transport_pull_block<T, E>(
    r: &std::sync::mpsc::Receiver<CommMsg<T, E>>,
) -> (p: Pull<T, E>)
    ensures
        p !is Empty,
{
    match r.recv() {
        Ok(m) => Pull::Envelope(m),
        Err(std::sync::mpsc::RecvError) => Pull::Disconnected,
    }
}

} // verus!
