//! The shared state of the WebSocket endpoints: the connection registry and
//! the broadcast channel that fans messages out to every connection.

use crate::clock::now_millis;
use crate::ids::{new_uuid, uuid_text};
use crate::protocol::room_message;
use crate::registry::{
    distinct_names, listed, lists_exactly, occupied, room_members, room_view, ConnectionInfo, ConnectionRecord,
    ConnectionRegistry, ConnectionStats,
};
use tokio::sync::broadcast::Sender;
use vstd::prelude::*;

verus! {

#[verifier::external_type_specification]
#[verifier::external_body]
#[verifier::reject_recursive_types(T)]
pub struct ExSender<T>(tokio::sync::broadcast::Sender<T>);

/// How many unread messages the channel keeps for each subscriber; a
/// subscriber that falls further behind loses the oldest.
pub const CHANNEL_CAPACITY: usize = 100;

/// Relies on `tokio::sync::broadcast::channel`: a channel that keeps up to
/// `capacity` unread messages per receiver. It panics when `capacity` is zero
/// or above `usize::MAX / 2`.
#[verifier::external_body]
fn open_channel(capacity: usize) -> (tx: Sender<String>)
    requires
        0 < capacity <= usize::MAX / 2,
{
    tokio::sync::broadcast::channel(capacity).0
}

/// Relies on `tokio::sync::broadcast::Sender::send`: queues `msg` for every
/// current receiver without blocking, and fails only when there is none.
#[verifier::external_body]
fn send_to_receivers(tx: &Sender<String>, msg: String) {
    let _ = tx.send(msg);
}

/// The state shared by the WebSocket endpoints.
pub struct WebSocketState {
    /// The channel every connection subscribes to.
    pub tx: Sender<String>,
    /// The live connections.
    pub connections: ConnectionRegistry,
}

impl WebSocketState {
    /// No connections, and a channel with no subscribers.
    pub fn new() -> (r: WebSocketState)
        ensures
            r.connections@ == Map::<Seq<char>, ConnectionRecord>::empty(),
            r.connections@.dom().finite(),
    {
        WebSocketState { tx: open_channel(CHANNEL_CAPACITY), connections: ConnectionRegistry::new() }
    }

    /// The number of live connections.
    pub fn connection_count(&self) -> (n: usize)
        ensures
            n == self.connections@.len(),
            self.connections@.dom().finite(),
    {
        self.connections.len()
    }

    /// The number of live connections in `room`.
    pub fn room_count(&self, room: &str) -> (n: usize)
        ensures
            n == room_members(self.connections@, room@).len(),
    {
        self.connections.room_count(room)
    }

    /// Sends `msg` to every current subscriber. It never blocks and never
    /// fails: a subscriber that is absent or too far behind misses it.
    pub fn broadcast(&self, msg: String) {
        send_to_receivers(&self.tx, msg)
    }

    /// Sends `msg` tagged for `room`, so that only the members of `room` pass it on.
    pub fn broadcast_to_room(&self, room: &str, msg: &str) {
        self.broadcast(room_message(room, msg))
    }

    /// Registers a new connection in `room` under an identifier that no live
    /// connection uses, which it returns: a fresh random identifier, or one
    /// made from it when it is taken. The registry grows by one.
    pub fn register(&mut self, room: Option<String>) -> (id: String)
        ensures
            !old(self).connections@.contains_key(id@),
            final(self).connections@ == old(self).connections@.insert(
                id@,
                ConnectionRecord {
                    user_id: id@,
                    connected_at: final(self).connections@[id@].connected_at,
                    room: room_view(room),
                },
            ),
            final(self).connections@.dom().finite(),
            final(self).connections@.len() == old(self).connections@.len() + 1,
            forall|name: Seq<char>| room_view(room) == Some(name) ==> #[trigger] room_members(
                final(self).connections@,
                name,
            ).len() >= 1,
    {
        let ghost before = self.connections@;
        let id = self.connections.fresh_id(uuid_text(&new_uuid()));
        let info = ConnectionInfo { user_id: id.clone(), connected_at: now_millis(), room };
        let ghost rec = info@;
        self.connections.insert(info);
        proof {
            let after = self.connections@;
            assert(after.dom() =~= before.dom().insert(id@));
            assert forall|name: Seq<char>| room_view(room) == Some(name) implies #[trigger] room_members(
                after,
                name,
            ).len() >= 1 by {
                let members = room_members(after, name);
                after.dom().lemma_len_filter(|k: Seq<char>| after[k].room == Some(name));
                assert(members.contains(id@));
                vstd::set_lib::lemma_set_empty_equivalency_len(members);
                if members.len() == 0 {
                    assert(members =~= Set::<Seq<char>>::empty());
                    assert(false);
                }
            }
        }
        id
    }

    /// Forgets connection `id`; does nothing when it is not registered.
    /// Returns whether it was.
    pub fn unregister(&mut self, id: &str) -> (r: bool)
        ensures
            final(self).connections@ == old(self).connections@.remove(id@),
            final(self).connections@.dom().finite(),
            final(self).connections@.len() == old(self).connections@.len() - if r {
                1int
            } else {
                0int
            },
            r == old(self).connections@.contains_key(id@),
    {
        self.connections.remove(id)
    }

    /// Counts of the live connections, for the statistics endpoint: in all,
    /// per occupied room, and each record.
    pub fn stats(&self) -> (r: ConnectionStats)
        ensures
            r.total_connections == self.connections@.len(),
            r.rooms@.len() == r.room_counts@.len(),
            distinct_names(r.rooms@),
            forall|name: Seq<char>| #[trigger] listed(r.rooms@, name) <==> occupied(self.connections@, name),
            forall|k: int| 0 <= k < r.rooms@.len() ==> #[trigger] r.room_counts@[k] == room_members(
                self.connections@,
                r.rooms@[k]@,
            ).len(),
            lists_exactly(r.connections@, self.connections@),
    {
        self.connections.stats()
    }
}

} // verus!
