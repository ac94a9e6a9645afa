//! The connection worker: one per client, between its socket and the bus.
//!
//! The program that owns the socket and the subscription waits for whichever
//! of the two is ready first and reports it as a [`ClientEvent`]. The worker
//! decides what follows: bytes from the socket are published as a message to
//! the registry, a message from the bus is written to the socket if it is
//! for this client or for everyone, and a closed or failing socket or a
//! failing subscription ends the worker for good.

use vstd::prelude::*;

use crate::bus::{send, Received, ReceivedView};
use crate::message::{Message, MessageView, MSG_BROADCAST_ID, MSG_REGISTRY_ID};
use crate::wire::wire_line;

verus! {

/// Most bytes that one read from the socket may return.
pub const READ_BUFFER_SIZE: usize = 1024;

/// Where a connection worker stands.
#[derive(Clone, Copy, Debug, PartialEq, Eq, Structural)]
pub enum ClientState {
    /// Serving the connection.
    Running,
    /// Ended: the peer closed the connection.
    Closed,
    /// Ended: reading from or writing to the socket failed.
    Broken,
    /// Ended: the subscription lagged or the bus is gone.
    Failed,
}

/// What the socket or the bus handed the worker.
pub enum ClientEvent {
    /// One read from the socket returned these bytes; none means that the
    /// peer closed the connection.
    SocketRead(Vec<u8>),
    /// Reading from the socket failed.
    SocketError,
    /// The subscription yielded this.
    Bus(Received),
    /// Writing the last line to the socket failed.
    WriteError,
}

/// A [`ClientEvent`] as a mathematical value.
pub ghost enum ClientEventView {
    SocketRead(Seq<u8>),
    SocketError,
    Bus(ReceivedView),
    WriteError,
}

impl View for ClientEvent {
    type V = ClientEventView;

    open spec fn view(&self) -> ClientEventView {
        match *self {
            ClientEvent::SocketRead(bytes) => ClientEventView::SocketRead(bytes@),
            ClientEvent::SocketError => ClientEventView::SocketError,
            ClientEvent::Bus(got) => ClientEventView::Bus(got@),
            ClientEvent::WriteError => ClientEventView::WriteError,
        }
    }
}

/// What a worker does about an event.
pub ghost enum Reaction {
    /// Publish this message on the bus and carry on.
    Forward(MessageView),
    /// Write this line to the socket and carry on.
    Write(Seq<char>),
    /// Nothing to do; carry on.
    Skip,
    /// End, or stay ended, in this state.
    Stop(ClientState),
}

/// The message that client `id` publishes for bytes read from its socket:
/// from the client to the registry, with the bytes as payload.
pub open spec fn incoming_of(id: u16, bytes: Seq<u8>) -> MessageView {
    MessageView { src_id: id, dst_id: MSG_REGISTRY_ID, data: bytes }
}

/// Whether client `id` is sent `m`: it is addressed to the client or to
/// everyone.
pub open spec fn delivers_to(id: u16, m: MessageView) -> bool {
    m.dst_id == id || m.dst_id == MSG_BROADCAST_ID
}

/// What a worker for client `id` in `state` does about `event`.
pub open spec fn reaction(id: u16, state: ClientState, event: ClientEventView) -> Reaction {
    if state != ClientState::Running {
        Reaction::Stop(state)
    } else {
        match event {
            ClientEventView::SocketRead(bytes) => if bytes.len() == 0 {
                Reaction::Stop(ClientState::Closed)
            } else {
                Reaction::Forward(incoming_of(id, bytes))
            },
            ClientEventView::SocketError => Reaction::Stop(ClientState::Broken),
            ClientEventView::Bus(ReceivedView::Message(m)) => if delivers_to(id, m) {
                Reaction::Write(wire_line(m))
            } else {
                Reaction::Skip
            },
            ClientEventView::Bus(_) => Reaction::Stop(ClientState::Failed),
            ClientEventView::WriteError => Reaction::Stop(ClientState::Broken),
        }
    }
}

/// The state a worker is in after it reacted.
pub open spec fn state_after(state: ClientState, reaction: Reaction) -> ClientState {
    match reaction {
        Reaction::Stop(end) => end,
        _ => state,
    }
}

/// What one step of a worker came to.
pub enum ClientStep {
    /// Bytes from the socket were published as a message. The field is what
    /// the bus made of it: the number of subscribers, or the message itself
    /// when nobody was subscribed, which does not end the worker.
    Forwarded(Result<usize, Message>),
    /// This line is to be written to the socket.
    Write(String),
    /// The message was for someone else.
    Skipped,
    /// The worker has ended.
    Stopped,
}

/// Whether `step` is what `reaction` asks for.
pub open spec fn carries_out(step: ClientStep, reaction: Reaction) -> bool {
    match reaction {
        Reaction::Forward(m) => {
            &&& step matches ClientStep::Forwarded(sent)
            &&& sent matches Ok(n) ==> n >= 1
            &&& sent matches Err(back) ==> back@ == m
        },
        Reaction::Write(line) => step matches ClientStep::Write(text) && text@ == line,
        Reaction::Skip => step is Skipped,
        Reaction::Stop(_) => step is Stopped,
    }
}

/// A connection worker: the client's address, the handle on which it
/// publishes, and where it stands.
pub struct Client {
    id: u16,
    tx: tokio::sync::broadcast::Sender<Message>,
    state: ClientState,
}

impl Client {
    /// The client's address.
    pub closed spec fn spec_id(&self) -> u16 {
        self.id
    }

    /// Where the worker stands.
    pub closed spec fn spec_state(&self) -> ClientState {
        self.state
    }

    /// The handle on which the worker publishes.
    pub closed spec fn handle(&self) -> tokio::sync::broadcast::Sender<Message> {
        self.tx
    }

    /// A running worker for client `id` that publishes on `tx`.
    pub fn new(id: u16, tx: tokio::sync::broadcast::Sender<Message>) -> (client: Client)
        ensures
            client.id() == id,
            client.state() == ClientState::Running,
            client.handle() == tx,
    {
        Client { id, tx, state: ClientState::Running }
    }

    /// The client's address.
    #[verifier::when_used_as_spec(spec_id)]
    pub fn id(&self) -> (id: u16)
        ensures
            id == self.spec_id(),
    {
        self.id
    }

    /// Where the worker stands.
    #[verifier::when_used_as_spec(spec_state)]
    pub fn state(&self) -> (state: ClientState)
        ensures
            state == self.spec_state(),
    {
        self.state
    }

    /// Builds the message that this client publishes for `bytes` read from
    /// its socket.
    pub fn incoming(&self, bytes: &[u8]) -> (msg: Message)
        ensures
            msg@ == incoming_of(self.id(), bytes@),
    {
        Message::new(self.id, MSG_REGISTRY_ID, bytes).unwrap()
    }

    /// Whether `msg` is to be written to this client's socket.
    pub fn accepts(&self, msg: &Message) -> (yes: bool)
        ensures
            yes == delivers_to(self.id(), msg@),
    {
        msg.dst_id() == self.id || msg.dst_id() == MSG_BROADCAST_ID
    }

    /// One step of the worker's loop, on one event.
    ///
    /// The step is the worker's reaction to the event, and the worker ends
    /// in the state that the reaction leaves it in. A worker that has ended
    /// stays as it is and answers every event with `Stopped`.
    pub fn worker(&mut self, event: ClientEvent) -> (step: ClientStep)
        ensures
            final(self).id() == old(self).id(),
            final(self).handle() == old(self).handle(),
            carries_out(step, reaction(old(self).id(), old(self).state(), event@)),
            final(self).state() == state_after(
                old(self).state(),
                reaction(old(self).id(), old(self).state(), event@),
            ),
    {
        if self.state != ClientState::Running {
            return ClientStep::Stopped;
        }
        match event {
            ClientEvent::SocketRead(bytes) => {
                if bytes.len() == 0 {
                    self.state = ClientState::Closed;
                    ClientStep::Stopped
                } else {
                    let msg = self.incoming(bytes.as_slice());
                    ClientStep::Forwarded(send(&self.tx, msg))
                }
            },
            ClientEvent::SocketError => {
                self.state = ClientState::Broken;
                ClientStep::Stopped
            },
            ClientEvent::Bus(Received::Message(msg)) => {
                if self.accepts(&msg) {
                    ClientStep::Write(msg.to_line())
                } else {
                    ClientStep::Skipped
                }
            },
            ClientEvent::Bus(_) => {
                self.state = ClientState::Failed;
                ClientStep::Stopped
            },
            ClientEvent::WriteError => {
                self.state = ClientState::Broken;
                ClientStep::Stopped
            },
        }
    }
}

} // verus!
