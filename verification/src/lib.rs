//! A point-to-point message channel with an out-of-band error signal.
//!
//! The channel carries ordinary values until the producer either closes it
//! gracefully (by dropping every `Sender`) or terminates it with a single
//! application error. The `Receiver` latches into a closed state as soon as
//! it observes either form of termination and never touches the transport
//! again.

use vstd::prelude::*;

pub mod iter;
pub mod laws;
pub mod receiver;
pub mod sender;
pub mod transport;

pub use iter::ReceiverIterator;
pub use receiver::Receiver;
pub use receiver::ReceiverView;
pub use sender::Sender;

verus! {

/// The tagged unit of transport: either a payload value or the one terminal
/// error a channel may carry.
pub enum CommMsg<T, E> {
    Message(T),
    Error(E),
}

/// Creates a channel: a connected producer/consumer pair carrying messages
/// of type `T` that can terminate with an error of type `E`. The sender has
/// observed no failure yet and the receiver starts open.
pub fn channel<T, E>() -> (r: (Sender<T, E>, Receiver<T, E>))
    ensures
        !r.0.spec_closed(),
        r.1@ == ReceiverView::<E>::initial(),
        receiver::wf(r.1@),
{
    let (tx, rx) = transport::transport_pair();
    (Sender::from_old(tx), Receiver::from_old(rx))
}

} // verus!
