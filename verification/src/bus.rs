//! The bus that carries every message between the workers.
//!
//! The bus is a `tokio` broadcast channel. This crate only publishes on it;
//! subscribing and waiting for the next message are left to the program that
//! runs the workers, which reports what it received as a [`Received`].

use vstd::prelude::*;

use crate::message::{Message, MessageView};

verus! {

/// Number of messages the bus keeps for subscribers that have not read them.
pub const BUS_CAPACITY: usize = 1024;

#[verifier::external_type_specification]
#[verifier::external_body]
#[verifier::reject_recursive_types(T)]
pub struct ExSender<T>(tokio::sync::broadcast::Sender<T>);

/// What a subscription yields when a worker waits on it.
pub enum Received {
    /// The next message on the bus.
    Message(Message),
    /// The subscriber fell behind and this many messages were lost to it.
    Lagged(u64),
    /// The bus is gone.
    Closed,
}

/// A [`Received`] as a mathematical value.
pub ghost enum ReceivedView {
    Message(MessageView),
    Lagged(u64),
    Closed,
}

impl View for Received {
    type V = ReceivedView;

    open spec fn view(&self) -> ReceivedView {
        match *self {
            Received::Message(m) => ReceivedView::Message(m@),
            Received::Lagged(n) => ReceivedView::Lagged(n),
            Received::Closed => ReceivedView::Closed,
        }
    }
}

/// Hands `msg` to the bus with `Sender::send`.
///
/// Trusted: the call succeeds only with at least one subscriber, whose
/// number it returns, and a message it cannot place comes back unchanged.
/// Whether anyone is subscribed is not known here, so nothing says which of
/// the two happens.
#[verifier::external_body]
pub(crate) fn send(tx: &tokio::sync::broadcast::Sender<Message>, msg: Message) -> (sent: Result<
    usize,
    Message,
>)
    ensures
        sent matches Ok(n) ==> n >= 1,
        sent matches Err(back) ==> back == msg,
{
    match tx.send(msg) {
        Ok(n) => Ok(n),
        Err(e) => Err(e.0),
    }
}

} // verus!
