//! The messages that travel over the broadcast channel and the decisions a
//! connection makes on each frame.
//!
//! A message for one room carries the tag `room:{room}:` in front of its
//! payload. A subscriber of a room keeps exactly the messages tagged for it and
//! strips the tag; a subscriber of the global channel keeps the untagged
//! messages. Room names are assumed to hold no `:`, since the tag cannot tell
//! `a:b` apart from the room `a` followed by a payload that starts with `b:`.

use crate::registry::room_view;
use crate::text::{chars_of, decimal, push_decimal, starts_with};
use vstd::prelude::*;
use vstd::string::{StringExecFns, StrSliceExecFns};

verus! {

/// The text every room tag starts with.
pub open spec fn tag_start() -> Seq<char> {
    seq!['r', 'o', 'o', 'm', ':']
}

/// The tag of messages meant for `room`: `room:{room}:`.
pub open spec fn room_prefix(room: Seq<char>) -> Seq<char> {
    tag_start() + room + seq![':']
}

/// What a subscriber surfaces to its client when `msg` arrives on the channel:
/// a room subscriber keeps what is tagged for its room, without the tag; a
/// global subscriber keeps what carries no room tag.
pub open spec fn delivered(subscription: Option<Seq<char>>, msg: Seq<char>) -> Option<Seq<char>> {
    match subscription {
        Some(room) => if room_prefix(room).is_prefix_of(msg) {
            Some(msg.skip(room_prefix(room).len() as int))
        } else {
            None
        },
        None => if tag_start().is_prefix_of(msg) {
            None
        } else {
            Some(msg)
        },
    }
}

/// A text that contains no `:`, and so can name a room.
pub open spec fn colon_free(s: Seq<char>) -> bool {
    forall|i: int| 0 <= i < s.len() ==> s[i] != ':'
}

/// Whether `name` can name a room: it holds no `:`.
pub fn room_name_allowed(name: &str) -> (r: bool)
    ensures
        r == colon_free(name@),
{
    let cs = chars_of(name);
    let mut i: usize = 0;
    while i < cs.len()
        invariant
            cs@ == name@,
            i <= cs@.len(),
            forall|j: int| 0 <= j < i ==> cs@[j] != ':',
        decreases cs@.len() - i,
    {
        if cs[i] == ':' {
            return false;
        }
        i = i + 1;
    }
    true
}

/// `[{id}]: {text}`.
pub open spec fn chat_text(id: Seq<char>, text: Seq<char>) -> Seq<char> {
    seq!['['] + id + seq![']', ':', ' '] + text
}

/// The message that carries `payload` to the members of `room`.
pub fn room_message(room: &str, payload: &str) -> (r: String)
    ensures
        r@ == room_prefix(room@) + payload@,
{
    let mut s = String::from_str("room:");
    proof { reveal_strlit("room:"); }
    s.append(room);
    s.append(":");
    proof { reveal_strlit(":"); }
    s.append(payload);
    assert(s@ =~= room_prefix(room@) + payload@);
    s
}

/// What a subscriber of `subscription` passes on to its client when `msg`
/// arrives on the channel, if anything.
pub fn deliver(subscription: &Option<String>, msg: &str) -> (r: Option<String>)
    ensures
        match r {
            Some(s) => delivered(room_view(*subscription), msg@) == Some(s@),
            None => delivered(room_view(*subscription), msg@) is None,
        },
{
    let cs = chars_of(msg);
    match subscription {
        Some(room) => {
            let prefix = room_message(room.as_str(), "");
            proof { reveal_strlit(""); }
            assert(prefix@ =~= room_prefix(room@));
            if starts_with(msg, prefix.as_str()) {
                let plen = prefix.as_str().unicode_len();
                let rest = msg.substring_char(plen, cs.len());
                Some(String::from_str(rest))
            } else {
                None
            }
        },
        None => {
            proof { reveal_strlit("room:"); }
            assert("room:"@ =~= tag_start());
            if starts_with(msg, "room:") {
                None
            } else {
                Some(String::from_str(msg))
            }
        },
    }
}

/// Room isolation: a message sent to room `target` is surfaced, without its
/// tag, by the subscribers of `target` and by no other subscriber, whether of
/// another room or of the global channel.
pub proof fn lemma_room_isolation(target: Seq<char>, room: Seq<char>, payload: Seq<char>)
    requires
        colon_free(target),
        colon_free(room),
    ensures
        delivered(Some(room), room_prefix(target) + payload) == (if room == target {
            Some(payload)
        } else {
            None
        }),
        delivered(None, room_prefix(target) + payload) is None,
{
    let msg = room_prefix(target) + payload;
    let p = room_prefix(room);
    assert(tag_start().is_prefix_of(msg)) by {
        assert forall|i: int| 0 <= i < 5 implies tag_start()[i] == msg[i] by {
            assert(msg[i] == room_prefix(target)[i]);
        }
    }
    if room == target {
        assert(p.is_prefix_of(msg));
        assert(msg.skip(p.len() as int) =~= payload);
    } else if p.is_prefix_of(msg) {
        if room.len() < target.len() {
            let k = 5 + room.len() as int;
            assert(p[k] == ':');
            assert(msg[k] == target[room.len() as int]);
        } else if room.len() > target.len() {
            let k = 5 + target.len() as int;
            assert(p[k] == room[target.len() as int]);
            assert(msg[k] == ':');
        } else {
            assert forall|i: int| 0 <= i < room.len() implies room[i] == target[i] by {
                assert(p[5 + i] == room[i]);
                assert(msg[5 + i] == target[i]);
            }
            assert(room =~= target);
        }
    }
}

/// `[{id}]: {text}`: what a connection's text becomes on the channel.
pub fn chat_message(id: &str, text: &str) -> (r: String)
    ensures
        r@ == chat_text(id@, text@),
{
    let mut s = String::from_str("[");
    proof { reveal_strlit("["); }
    s.append(id);
    s.append("]: ");
    proof { reveal_strlit("]: "); }
    s.append(text);
    assert(s@ =~= chat_text(id@, text@));
    s
}

/// `Welcome! You are connected as {id}. There are {count} active connections.`
pub open spec fn welcome_text(id: Seq<char>, count: nat) -> Seq<char> {
    "Welcome! You are connected as "@ + id + ". There are "@ + decimal(count) + " active connections."@
}

/// The greeting sent to a new connection on the global channel.
pub fn welcome_message(id: &str, count: usize) -> (r: String)
    ensures
        r@ == welcome_text(id@, count as nat),
{
    let mut s = String::from_str("Welcome! You are connected as ");
    s.append(id);
    s.append(". There are ");
    push_decimal(&mut s, count as u64);
    s.append(" active connections.");
    s
}

/// `{id} disconnected. {remaining} connections remaining.`
pub open spec fn departure_text(id: Seq<char>, remaining: nat) -> Seq<char> {
    id + " disconnected. "@ + decimal(remaining) + " connections remaining."@
}

/// The notice broadcast when a connection on the global channel leaves.
pub fn departure_message(id: &str, remaining: usize) -> (r: String)
    ensures
        r@ == departure_text(id@, remaining as nat),
{
    let mut s = String::from_str(id);
    s.append(" disconnected. ");
    push_decimal(&mut s, remaining as u64);
    s.append(" connections remaining.");
    s
}

/// `Welcome to room '{room}'! You are {id} of {count} users in this room.`
pub open spec fn room_welcome_text(room: Seq<char>, id: Seq<char>, count: nat) -> Seq<char> {
    "Welcome to room '"@ + room + "'! You are "@ + id + " of "@ + decimal(count) + " users in this room."@
}

/// The greeting sent to a new member of `room`.
pub fn room_welcome_message(room: &str, id: &str, count: usize) -> (r: String)
    ensures
        r@ == room_welcome_text(room@, id@, count as nat),
{
    let mut s = String::from_str("Welcome to room '");
    s.append(room);
    s.append("'! You are ");
    s.append(id);
    s.append(" of ");
    push_decimal(&mut s, count as u64);
    s.append(" users in this room.");
    s
}

/// The notice to `room` that `id` joined it.
pub fn join_message(room: &str, id: &str) -> (r: String)
    ensures
        r@ == room_prefix(room@) + id@ + " joined the room"@,
{
    let mut body = String::from_str(id);
    body.append(" joined the room");
    room_message(room, body.as_str())
}

/// The notice to `room` that `id` left it.
pub fn leave_message(room: &str, id: &str) -> (r: String)
    ensures
        r@ == room_prefix(room@) + id@ + " left the room"@,
{
    let mut body = String::from_str(id);
    body.append(" left the room");
    room_message(room, body.as_str())
}

/// A WebSocket frame, as the connection logic sees it.
pub enum Frame {
    Text(String),
    Binary(Vec<u8>),
    Ping(Vec<u8>),
    Pong(Vec<u8>),
    Close,
}

/// What the echo endpoint does with one inbound frame.
pub enum EchoStep {
    /// Send this frame back.
    Reply(Frame),
    /// End the session.
    Stop,
    /// Do nothing and wait for the next frame.
    Ignore,
}

/// `Echo: {text}`.
pub open spec fn echo_text(text: Seq<char>) -> Seq<char> {
    "Echo: "@ + text
}

/// The echo endpoint's answer to `frame`: text comes back annotated, binary
/// data comes back as it is, a ping is answered by a pong with its payload,
/// and a close frame ends the session.
pub fn echo_step(frame: Frame) -> (r: EchoStep)
    ensures
        match frame {
            Frame::Text(t) => match r {
                EchoStep::Reply(Frame::Text(e)) => e@ == echo_text(t@),
                _ => false,
            },
            Frame::Binary(b) => r == EchoStep::Reply(Frame::Binary(b)),
            Frame::Ping(b) => r == EchoStep::Reply(Frame::Pong(b)),
            Frame::Pong(_) => r == EchoStep::Ignore,
            Frame::Close => r == EchoStep::Stop,
        },
{
    match frame {
        Frame::Text(t) => {
            let mut e = String::from_str("Echo: ");
            e.append(t.as_str());
            EchoStep::Reply(Frame::Text(e))
        },
        Frame::Binary(b) => EchoStep::Reply(Frame::Binary(b)),
        Frame::Ping(b) => EchoStep::Reply(Frame::Pong(b)),
        Frame::Pong(_) => EchoStep::Ignore,
        Frame::Close => EchoStep::Stop,
    }
}

/// What a connection on the global channel or in a room does with one frame
/// from its client.
pub enum InboundStep {
    /// Hand this message to the broadcast channel.
    Publish(String),
    /// End the connection.
    Stop,
    /// Do nothing and wait for the next frame.
    Ignore,
}

/// The message a connection publishes for `text`: `[{id}]: {text}` on the
/// global channel, tagged for the room when the connection belongs to one.
pub open spec fn published_text(id: Seq<char>, room: Option<Seq<char>>, text: Seq<char>) -> Seq<char> {
    match room {
        Some(r) => room_prefix(r) + chat_text(id, text),
        None => chat_text(id, text),
    }
}

/// The decision of connection `id`, subscribed to `room`, on a frame from its client.
pub fn inbound_step(id: &str, room: &Option<String>, frame: &Frame) -> (r: InboundStep)
    ensures
        match *frame {
            Frame::Text(t) => match r {
                InboundStep::Publish(m) => m@ == published_text(id@, room_view(*room), t@),
                _ => false,
            },
            Frame::Close => r == InboundStep::Stop,
            _ => r == InboundStep::Ignore,
        },
{
    match frame {
        Frame::Text(t) => {
            let chat = chat_message(id, t.as_str());
            match room {
                Some(name) => {
                    let m = room_message(name.as_str(), chat.as_str());
                    InboundStep::Publish(m)
                },
                None => InboundStep::Publish(chat),
            }
        },
        Frame::Close => InboundStep::Stop,
        _ => InboundStep::Ignore,
    }
}

/// Where a connection stands in its life.
#[derive(Debug, Clone, Copy, PartialEq, Eq, Structural)]
pub enum ConnectionPhase {
    /// The handshake has not completed.
    Connecting,
    /// Registered, and moving frames both ways.
    Active,
    /// One direction has stopped; the other is being cancelled.
    Closing,
    /// Unregistered, and its departure announced.
    Closed,
}

/// What happens to a connection.
#[derive(Debug, Clone, Copy, PartialEq, Eq, Structural)]
pub enum PhaseEvent {
    /// The handshake completed, the connection was registered and welcomed.
    Upgraded,
    /// A ping was answered with a pong.
    PingAnswered,
    /// The peer sent a close frame or went away.
    PeerClosed,
    /// Sending or receiving failed.
    TransportFailed,
    /// The other direction was cancelled, the connection unregistered and its
    /// departure announced.
    TornDown,
}

/// The phase a connection reaches from `phase` when `event` happens; events
/// that do not apply leave it where it is, and a closed connection stays closed.
pub open spec fn phase_after(phase: ConnectionPhase, event: PhaseEvent) -> ConnectionPhase {
    match (phase, event) {
        (ConnectionPhase::Connecting, PhaseEvent::Upgraded) => ConnectionPhase::Active,
        (ConnectionPhase::Active, PhaseEvent::PeerClosed) => ConnectionPhase::Closing,
        (ConnectionPhase::Active, PhaseEvent::TransportFailed) => ConnectionPhase::Closing,
        (ConnectionPhase::Closing, PhaseEvent::TornDown) => ConnectionPhase::Closed,
        _ => phase,
    }
}

/// The phase a connection reaches from `phase` when `event` happens.
pub fn next_phase(phase: ConnectionPhase, event: PhaseEvent) -> (r: ConnectionPhase)
    ensures
        r == phase_after(phase, event),
        phase == ConnectionPhase::Closed ==> r == ConnectionPhase::Closed,
{
    match (phase, event) {
        (ConnectionPhase::Connecting, PhaseEvent::Upgraded) => ConnectionPhase::Active,
        (ConnectionPhase::Active, PhaseEvent::PeerClosed) => ConnectionPhase::Closing,
        (ConnectionPhase::Active, PhaseEvent::TransportFailed) => ConnectionPhase::Closing,
        (ConnectionPhase::Closing, PhaseEvent::TornDown) => ConnectionPhase::Closed,
        _ => phase,
    }
}

} // verus!
