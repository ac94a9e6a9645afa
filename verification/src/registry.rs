//! The registry: the one worker that answers messages addressed to the hub.
//!
//! For every message addressed to it the registry publishes two messages of
//! its own: an acknowledgement to the sender and a notice to every client.
//! Messages for anyone else pass it by.

use vstd::prelude::*;
use vstd::string::StringSliceAdditionalSpecFns;
use vstd::utf8::encode_utf8;

use crate::bus::{send, Received, ReceivedView};
use crate::message::{Message, MessageView, MSG_BROADCAST_ID, MSG_REGISTRY_ID};
use crate::wire::{decimal, push_decimal};

verus! {

/// The payload of an acknowledgement: the bytes of `ACK`.
pub open spec fn ack_payload() -> Seq<u8> {
    seq![0x41u8, 0x43u8, 0x4Bu8]
}

/// The acknowledgement the registry sends for `m`: from the registry to the
/// sender of `m`.
pub open spec fn ack_of(m: MessageView) -> MessageView {
    MessageView { src_id: MSG_REGISTRY_ID, dst_id: m.src_id, data: ack_payload() }
}

/// The text of the notice about a message from `sender`.
pub open spec fn notice_text(sender: u16) -> Seq<char> {
    "received message from "@ + decimal(sender as nat)
}

/// The notice the registry sends for `m`: from the registry to everyone,
/// naming the sender of `m`.
pub open spec fn notice_of(m: MessageView) -> MessageView {
    MessageView {
        src_id: MSG_REGISTRY_ID,
        dst_id: MSG_BROADCAST_ID,
        data: encode_utf8(notice_text(m.src_id)),
    }
}

/// Whether the registry acts on `m`.
pub open spec fn for_registry(m: MessageView) -> bool {
    m.dst_id == MSG_REGISTRY_ID
}

/// What one step of the registry came to.
pub enum RegistryStep {
    /// The message was for the registry. Each field is what the bus made of
    /// one reply: the number of subscribers, or the reply itself when nobody
    /// was subscribed.
    Processed { ack: Result<usize, Message>, notice: Result<usize, Message> },
    /// The message was for someone else.
    Ignored,
    /// The subscription failed; the registry cannot go on.
    Failed,
}

/// The registry worker. It holds the handle on which it publishes.
pub struct Registry {
    tx: tokio::sync::broadcast::Sender<Message>,
}

impl Registry {
    /// The handle on which the registry publishes.
    pub closed spec fn handle(&self) -> tokio::sync::broadcast::Sender<Message> {
        self.tx
    }

    /// A registry that publishes on `tx`.
    pub fn new(tx: tokio::sync::broadcast::Sender<Message>) -> (registry: Registry)
        ensures
            registry.handle() == tx,
    {
        Registry { tx }
    }

    /// Builds the acknowledgement for `msg`.
    pub fn ack_for(msg: &Message) -> (ack: Message)
        ensures
            ack@ == ack_of(msg@),
    {
        let text = "ACK";
        proof {
            reveal_strlit("ACK");
            vstd::string::is_ascii_spec_bytes(text);
            assert(text.spec_bytes() =~= ack_payload());
        }
        Message::new(MSG_REGISTRY_ID, msg.src_id(), text.as_bytes()).unwrap()
    }

    /// Builds the notice to every client about `msg`.
    pub fn notice_for(msg: &Message) -> (notice: Message)
        ensures
            notice@ == notice_of(msg@),
    {
        let mut text = String::new();
        text.append("received message from ");
        push_decimal(&mut text, msg.src_id());
        assert(text@ =~= notice_text(msg@.src_id));
        Message::new(MSG_REGISTRY_ID, MSG_BROADCAST_ID, text.as_str().as_bytes()).unwrap()
    }

    /// Publishes the acknowledgement for `msg`. A reply that nobody could
    /// receive is handed back; the registry goes on either way.
    pub fn ack_msg(&mut self, msg: &Message) -> (sent: Result<usize, Message>)
        ensures
            *final(self) == *old(self),
            sent matches Ok(n) ==> n >= 1,
            sent matches Err(back) ==> back@ == ack_of(msg@),
    {
        let res = Self::ack_for(msg);
        send(&self.tx, res)
    }

    /// Publishes the notice about `msg` to every client. A notice that nobody
    /// could receive is handed back; the registry goes on either way.
    pub fn broadcast(&mut self, msg: &Message) -> (sent: Result<usize, Message>)
        ensures
            *final(self) == *old(self),
            sent matches Ok(n) ==> n >= 1,
            sent matches Err(back) ==> back@ == notice_of(msg@),
    {
        let res = Self::notice_for(msg);
        send(&self.tx, res)
    }

    /// Answers a message addressed to the registry: first the
    /// acknowledgement, then the notice.
    pub fn process_msg(&mut self, msg: &Message) -> (sent: (
        Result<usize, Message>,
        Result<usize, Message>,
    ))
        ensures
            *final(self) == *old(self),
            sent.0 matches Ok(n) ==> n >= 1,
            sent.0 matches Err(back) ==> back@ == ack_of(msg@),
            sent.1 matches Ok(n) ==> n >= 1,
            sent.1 matches Err(back) ==> back@ == notice_of(msg@),
    {
        let ack = self.ack_msg(msg);
        let notice = self.broadcast(msg);
        (ack, notice)
    }

    /// One step of the registry's loop, on what its subscription yielded.
    ///
    /// A message for the registry is answered, any other message is ignored,
    /// and a failed subscription ends the registry.
    pub fn worker(&mut self, got: Received) -> (step: RegistryStep)
        ensures
            *final(self) == *old(self),
            match got@ {
                ReceivedView::Message(m) => if for_registry(m) {
                    &&& step matches RegistryStep::Processed { ack, notice }
                    &&& ack matches Ok(n) ==> n >= 1
                    &&& ack matches Err(back) ==> back@ == ack_of(m)
                    &&& notice matches Ok(n) ==> n >= 1
                    &&& notice matches Err(back) ==> back@ == notice_of(m)
                } else {
                    step is Ignored
                },
                ReceivedView::Lagged(_) => step is Failed,
                ReceivedView::Closed => step is Failed,
            },
    {
        match got {
            Received::Message(msg) => {
                if msg.dst_id() == MSG_REGISTRY_ID {
                    let (ack, notice) = self.process_msg(&msg);
                    RegistryStep::Processed { ack, notice }
                } else {
                    RegistryStep::Ignored
                }
            },
            Received::Lagged(_) => RegistryStep::Failed,
            Received::Closed => RegistryStep::Failed,
        }
    }
}

} // verus!
