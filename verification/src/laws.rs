//! What holds of the hub as a whole: who is sent what, what a client gets
//! back for what it sends, and that an ended worker stays ended.

use vstd::prelude::*;
use vstd::utf8::{
    encode_utf8, encode_utf8_decode_utf8, encode_utf8_valid_utf8, is_ascii_chars,
    is_ascii_chars_encode_utf8, valid_utf8,
};

use crate::bus::ReceivedView;
use crate::client::{
    delivers_to, incoming_of, reaction, state_after, ClientEventView, ClientState, Reaction,
};
use crate::message::{MessageView, MSG_BROADCAST_ID};
use crate::registry::{ack_of, ack_payload, for_registry, notice_of, notice_text};
use crate::wire::{payload_text, wire_line};

verus! {

/// The event that a subscription yielded message `m`.
pub open spec fn bus_message(m: MessageView) -> ClientEventView {
    ClientEventView::Bus(ReceivedView::Message(m))
}

/// A message addressed to one client is written to the socket of that
/// client and of no other, and the registry leaves it alone unless the
/// address is its own.
pub proof fn lemma_unicast_delivery(a: u16, c: u16, m: MessageView)
    requires
        m.dst_id == a,
        a != MSG_BROADCAST_ID,
    ensures
        delivers_to(c, m) <==> c == a,
        c == a ==> reaction(c, ClientState::Running, bus_message(m)) == Reaction::Write(
            wire_line(m),
        ),
        c != a ==> reaction(c, ClientState::Running, bus_message(m)) == Reaction::Skip,
{
}

/// A message addressed to everyone is written to the socket of every
/// running client, once for each time the client's subscription yields it,
/// and the registry ignores it.
pub proof fn lemma_broadcast_delivery(c: u16, m: MessageView)
    requires
        m.dst_id == MSG_BROADCAST_ID,
    ensures
        delivers_to(c, m),
        reaction(c, ClientState::Running, bus_message(m)) == Reaction::Write(wire_line(m)),
        !for_registry(m),
{
}

/// A message that is addressed neither to a client nor to everyone is never
/// written to that client's socket, whatever state its worker is in.
pub proof fn lemma_non_matching_drop(c: u16, state: ClientState, m: MessageView)
    requires
        m.dst_id != c,
        m.dst_id != MSG_BROADCAST_ID,
    ensures
        !delivers_to(c, m),
        !(reaction(c, state, bus_message(m)) is Write),
{
}

/// What a client gets back for bytes it sends. The worker of client `a`
/// publishes them as a message that the registry acts on; the
/// acknowledgement that the registry builds for it carries `ACK` and is
/// written to the socket of `a`; the notice carries the sender's address
/// and is written to the socket of every running client `c`.
pub proof fn lemma_registry_round_trip(a: u16, c: u16, bytes: Seq<u8>)
    requires
        bytes.len() > 0,
    ensures
        reaction(a, ClientState::Running, ClientEventView::SocketRead(bytes)) == Reaction::Forward(
            incoming_of(a, bytes),
        ),
        for_registry(incoming_of(a, bytes)),
        ack_of(incoming_of(a, bytes)).data == ack_payload(),
        reaction(a, ClientState::Running, bus_message(ack_of(incoming_of(a, bytes))))
            == Reaction::Write(wire_line(ack_of(incoming_of(a, bytes)))),
        notice_of(incoming_of(a, bytes)).data == encode_utf8(notice_text(a)),
        reaction(c, ClientState::Running, bus_message(notice_of(incoming_of(a, bytes))))
            == Reaction::Write(wire_line(notice_of(incoming_of(a, bytes)))),
{
}

/// The state of a worker for client `id` that started in `state` and has
/// reacted to `events` in turn.
pub open spec fn state_after_all(
    id: u16,
    state: ClientState,
    events: Seq<ClientEventView>,
) -> ClientState
    decreases events.len(),
{
    if events.len() == 0 {
        state
    } else {
        state_after_all(id, state_after(state, reaction(id, state, events[0])), events.drop_first())
    }
}

/// A read of no bytes ends a running worker as closed.
pub proof fn lemma_empty_read_closes(id: u16)
    ensures
        reaction(id, ClientState::Running, ClientEventView::SocketRead(Seq::empty()))
            == Reaction::Stop(ClientState::Closed),
        state_after(
            ClientState::Running,
            reaction(id, ClientState::Running, ClientEventView::SocketRead(Seq::empty())),
        ) == ClientState::Closed,
{
}

/// A worker that has ended never writes or publishes again and never
/// leaves the state it ended in, whatever events follow.
pub proof fn lemma_ended_stays_ended(id: u16, state: ClientState, events: Seq<ClientEventView>)
    requires
        state != ClientState::Running,
    ensures
        forall|i: int|
            0 <= i < events.len() ==> reaction(id, state, #[trigger] events[i]) == Reaction::Stop(
                state,
            ),
        state_after_all(id, state, events) == state,
    decreases events.len(),
{
    if events.len() > 0 {
        lemma_ended_stays_ended(id, state, events.drop_first());
    }
}

/// Whether every byte is an ASCII character.
pub open spec fn is_ascii_bytes(bytes: Seq<u8>) -> bool {
    forall|i: int| 0 <= i < bytes.len() ==> #[trigger] bytes[i] < 128
}

/// The text whose characters are the given ASCII bytes.
pub open spec fn ascii_text(bytes: Seq<u8>) -> Seq<char> {
    Seq::new(bytes.len(), |i: int| bytes[i] as char)
}

/// An ASCII payload is shown to a client byte for byte.
pub proof fn lemma_ascii_payload_text(bytes: Seq<u8>)
    requires
        is_ascii_bytes(bytes),
    ensures
        valid_utf8(bytes),
        payload_text(bytes) == ascii_text(bytes),
{
    let chars = ascii_text(bytes);
    assert(is_ascii_chars(chars));
    is_ascii_chars_encode_utf8(chars);
    assert forall|i: int| 0 <= i < bytes.len() implies encode_utf8(chars)[i] == bytes[i] by {
        assert(chars[i] as u8 == encode_utf8(chars)[i]);
    }
    assert(encode_utf8(chars) =~= bytes);
    encode_utf8_valid_utf8(chars);
    encode_utf8_decode_utf8(chars);
}

} // verus!
