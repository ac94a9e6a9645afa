//! The addressed unit of data that travels on the bus.

use vstd::prelude::*;
use vstd::slice::slice_to_vec;

verus! {

/// Destination that stands for every connected client.
pub const MSG_BROADCAST_ID: u16 = 0xFFFF;

/// Address of the registry, as a destination and as the source of its replies.
pub const MSG_REGISTRY_ID: u16 = 0;

/// What a message is, as a mathematical value.
pub ghost struct MessageView {
    pub src_id: u16,
    pub dst_id: u16,
    pub data: Seq<u8>,
}

/// A message on the bus: who sent it, whom it is for, and its payload.
///
/// A message never changes once it is built.
pub struct Message {
    src_id: u16,
    dst_id: u16,
    data: Vec<u8>,
}

impl View for Message {
    type V = MessageView;

    closed spec fn view(&self) -> MessageView {
        MessageView { src_id: self.src_id, dst_id: self.dst_id, data: self.data@ }
    }
}

impl Clone for Message {
    fn clone(&self) -> (copy: Self)
        ensures
            copy@ == self@,
    {
        Message { src_id: self.src_id, dst_id: self.dst_id, data: self.data.clone() }
    }
}

impl Message {
    /// Builds a message from its addresses and a copy of the payload bytes.
    /// Any bytes make a message: the result is always `Some`.
    pub fn new(src_id: u16, dst_id: u16, data: &[u8]) -> (made: Option<Message>)
        ensures
            made is Some,
            made->0@ == (MessageView { src_id, dst_id, data: data@ }),
    {
        Some(Message { src_id, dst_id, data: slice_to_vec(data) })
    }

    /// The address of the sender.
    pub fn src_id(&self) -> (id: u16)
        ensures
            id == self@.src_id,
    {
        self.src_id
    }

    /// The address the message is for.
    pub fn dst_id(&self) -> (id: u16)
        ensures
            id == self@.dst_id,
    {
        self.dst_id
    }

    /// The payload bytes.
    pub fn data(&self) -> (bytes: &[u8])
        ensures
            bytes@ == self@.data,
    {
        self.data.as_slice()
    }
}

} // verus!
