//! The registry of live WebSocket connections: which connections exist and
//! which room each one belongs to.

use crate::text::{clone_opt, push_char, str_eq};
use vstd::string::{StrSliceExecFns, StringExecFns};
use vstd::prelude::*;

verus! {

/// One live connection.
pub struct ConnectionInfo {
    /// The connection's identifier.
    pub user_id: String,
    /// When the connection was accepted, in milliseconds since the Unix epoch.
    pub connected_at: i64,
    /// The room the connection belongs to; `None` for the global channel.
    pub room: Option<String>,
}

/// What the registry holds of one connection: `ConnectionInfo` as values.
pub struct ConnectionRecord {
    pub user_id: Seq<char>,
    pub connected_at: i64,
    pub room: Option<Seq<char>>,
}

/// A room as a sequence of characters.
pub open spec fn room_view(room: Option<String>) -> Option<Seq<char>> {
    match room {
        Some(r) => Some(r@),
        None => None,
    }
}

impl View for ConnectionInfo {
    type V = ConnectionRecord;

    open spec fn view(&self) -> ConnectionRecord {
        ConnectionRecord { user_id: self.user_id@, connected_at: self.connected_at, room: room_view(self.room) }
    }
}

impl ConnectionInfo {
    /// A copy of this record.
    pub fn duplicate(&self) -> (r: ConnectionInfo)
        ensures
            r@ == self@,
    {
        ConnectionInfo { user_id: self.user_id.clone(), connected_at: self.connected_at, room: clone_opt(&self.room) }
    }
}

/// The stored records, with their model as a map from identifier to record.
struct Table {
    records: Vec<ConnectionInfo>,
    model: Ghost<Map<Seq<char>, ConnectionRecord>>,
}

impl View for Table {
    type V = Map<Seq<char>, ConnectionRecord>;

    closed spec fn view(&self) -> Map<Seq<char>, ConnectionRecord> {
        self.model@
    }
}

/// The identifiers of the connections in `m` that belong to `room`.
pub open spec fn room_members(m: Map<Seq<char>, ConnectionRecord>, room: Seq<char>) -> Set<Seq<char>> {
    m.dom().filter(|id: Seq<char>| m[id].room == Some(room))
}

impl Table {
    /// Each identifier occurs once, and the model holds exactly the stored records.
    spec fn wf(&self) -> bool {
        &&& self.model@.dom().finite()
        &&& self.model@.len() == self.records@.len()
        &&& forall|i: int| 0 <= i < self.records@.len() ==> {
            &&& #[trigger] self.model@.contains_key(self.records@[i].user_id@)
            &&& self.model@[self.records@[i].user_id@] == self.records@[i]@
        }
        &&& forall|k: Seq<char>| #[trigger] self.model@.contains_key(k) ==> exists|i: int|
            0 <= i < self.records@.len() && self.records@[i].user_id@ == k
        &&& forall|i: int, j: int|
            0 <= i < self.records@.len() && 0 <= j < self.records@.len() && i != j
                ==> #[trigger] self.records@[i].user_id@ != #[trigger] self.records@[j].user_id@
    }

    fn new() -> (r: Table)
        ensures
            r.wf(),
            r@ == Map::<Seq<char>, ConnectionRecord>::empty(),
    {
        Table { records: Vec::new(), model: Ghost(Map::empty()) }
    }

    fn len(&self) -> (n: usize)
        requires
            self.wf(),
        ensures
            n == self@.len(),
    {
        self.records.len()
    }

    /// The position of the record with identifier `id`, if there is one.
    fn position(&self, id: &str) -> (r: Option<usize>)
        requires
            self.wf(),
        ensures
            match r {
                Some(i) => i < self.records@.len() && self.records@[i as int].user_id@ == id@,
                None => !self@.contains_key(id@),
            },
    {
        let mut i: usize = 0;
        while i < self.records.len()
            invariant
                self.wf(),
                i <= self.records@.len(),
                forall|j: int| 0 <= j < i ==> self.records@[j].user_id@ != id@,
            decreases self.records@.len() - i,
        {
            if str_eq(self.records[i].user_id.as_str(), id) {
                return Some(i);
            }
            i = i + 1;
        }
        None
    }

    fn contains(&self, id: &str) -> (r: bool)
        requires
            self.wf(),
        ensures
            r == self@.contains_key(id@),
    {
        self.position(id).is_some()
    }

    fn insert(&mut self, info: ConnectionInfo)
        requires
            old(self).wf(),
        ensures
            final(self).wf(),
            final(self)@ == old(self)@.insert(info.user_id@, info@),
    {
        let ghost key = info.user_id@;
        let ghost rec = info@;
        match self.position(info.user_id.as_str()) {
            Some(i) => {
                self.records.set(i, info);
                self.model = Ghost(self.model@.insert(key, rec));
                assert(self.model@.dom() =~= old(self).model@.dom());
                assert(old(self).records@[i as int].user_id@ == key);
                assert forall|j: int| 0 <= j < self.records@.len() implies {
                    &&& #[trigger] self.model@.contains_key(self.records@[j].user_id@)
                    &&& self.model@[self.records@[j].user_id@] == self.records@[j]@
                } by {
                    if j != i {
                        assert(self.records@[j] == old(self).records@[j]);
                        assert(old(self).records@[j].user_id@ != old(self).records@[i as int].user_id@);
                        assert(old(self).model@.contains_key(old(self).records@[j].user_id@));
                    }
                }
                assert forall|a: int, b: int|
                    0 <= a < self.records@.len() && 0 <= b < self.records@.len() && a != b
                        implies #[trigger] self.records@[a].user_id@ != #[trigger] self.records@[b].user_id@ by {
                    assert(self.records@[a].user_id@ == old(self).records@[a].user_id@);
                    assert(self.records@[b].user_id@ == old(self).records@[b].user_id@);
                }
                assert forall|k: Seq<char>| #[trigger] self.model@.contains_key(k) implies exists|j: int|
                    0 <= j < self.records@.len() && self.records@[j].user_id@ == k by {
                    if k != key {
                        let j = choose|j: int| 0 <= j < old(self).records@.len() && old(self).records@[j].user_id@ == k;
                        assert(self.records@[j].user_id@ == k);
                    } else {
                        assert(self.records@[i as int].user_id@ == k);
                    }
                }
            },
            None => {
                self.records.push(info);
                self.model = Ghost(self.model@.insert(key, rec));
                let ghost n = old(self).records@.len() as int;
                assert forall|k: Seq<char>| #[trigger] self.model@.contains_key(k) implies exists|j: int|
                    0 <= j < self.records@.len() && self.records@[j].user_id@ == k by {
                    if k != key {
                        let j = choose|j: int| 0 <= j < old(self).records@.len() && old(self).records@[j].user_id@ == k;
                        assert(self.records@[j].user_id@ == k);
                    } else {
                        assert(self.records@[n].user_id@ == k);
                    }
                }
                assert forall|j: int| 0 <= j < n implies #[trigger] old(self).records@[j].user_id@ != key by {
                    assert(old(self).model@.contains_key(old(self).records@[j].user_id@));
                }
                assert(!old(self).model@.contains_key(key));
                assert(self.model@.dom() =~= old(self).model@.dom().insert(key));
                assert forall|j: int| 0 <= j < self.records@.len() implies {
                    &&& #[trigger] self.model@.contains_key(self.records@[j].user_id@)
                    &&& self.model@[self.records@[j].user_id@] == self.records@[j]@
                } by {
                    if j < n {
                        assert(self.records@[j] == old(self).records@[j]);
                        assert(old(self).model@.contains_key(old(self).records@[j].user_id@));
                    }
                }
                assert forall|a: int, b: int|
                    0 <= a < self.records@.len() && 0 <= b < self.records@.len() && a != b
                        implies #[trigger] self.records@[a].user_id@ != #[trigger] self.records@[b].user_id@ by {
                    if a < n {
                        assert(self.records@[a] == old(self).records@[a]);
                    }
                    if b < n {
                        assert(self.records@[b] == old(self).records@[b]);
                    }
                }
            },
        }
    }

    fn remove(&mut self, id: &str) -> (r: bool)
        requires
            old(self).wf(),
        ensures
            final(self).wf(),
            final(self)@ == old(self)@.remove(id@),
            r == old(self)@.contains_key(id@),
    {
        match self.position(id) {
            Some(i) => {
                let ghost old_records = self.records@;
                let _gone = self.records.remove(i);
                self.model = Ghost(self.model@.remove(id@));
                assert forall|j: int| 0 <= j < self.records@.len() implies {
                    &&& #[trigger] self.model@.contains_key(self.records@[j].user_id@)
                    &&& self.model@[self.records@[j].user_id@] == self.records@[j]@
                } by {
                    let oj = if j < i { j } else { j + 1 };
                    assert(self.records@[j] == old_records[oj]);
                    assert(old_records[oj].user_id@ != old_records[i as int].user_id@);
                    assert(old(self).model@.contains_key(old(self).records@[oj].user_id@));
                }
                assert forall|k: Seq<char>| #[trigger] self.model@.contains_key(k) implies exists|j: int|
                    0 <= j < self.records@.len() && self.records@[j].user_id@ == k by {
                    let oj = choose|j: int| 0 <= j < old_records.len() && old_records[j].user_id@ == k;
                    assert(oj != i);
                    if oj < i {
                        assert(self.records@[oj].user_id@ == k);
                    } else {
                        assert(self.records@[oj - 1].user_id@ == k);
                    }
                }
                assert forall|a: int, b: int|
                    0 <= a < self.records@.len() && 0 <= b < self.records@.len() && a != b
                        implies #[trigger] self.records@[a].user_id@ != #[trigger] self.records@[b].user_id@ by {
                    let oa = if a < i { a } else { a + 1 };
                    let ob = if b < i { b } else { b + 1 };
                    assert(self.records@[a] == old_records[oa]);
                    assert(self.records@[b] == old_records[ob]);
                }
                true
            },
            None => {
                assert(self.model@.remove(id@) =~= self.model@);
                false
            },
        }
    }
}

/// Whether `room` holds the room name `name`.
fn room_is(room: &Option<String>, name: &str) -> (r: bool)
    ensures
        r == (room_view(*room) == Some(name@)),
{
    match room {
        Some(s) => str_eq(s.as_str(), name),
        None => false,
    }
}

/// Whether some record of `m` belongs to `room`.
pub open spec fn occupied(m: Map<Seq<char>, ConnectionRecord>, room: Seq<char>) -> bool {
    exists|id: Seq<char>| #[trigger] m.contains_key(id) && m[id].room == Some(room)
}

/// Whether the names of `rooms` are pairwise distinct.
pub open spec fn distinct_names(rooms: Seq<String>) -> bool {
    forall|a: int, b: int|
        0 <= a < rooms.len() && 0 <= b < rooms.len() && a != b ==> #[trigger] rooms[a]@ != #[trigger] rooms[b]@
}

impl Table {
    /// The longest identifier in the table; empty when the table is.
    fn longest_id(&self) -> (r: String)
        requires
            self.wf(),
        ensures
            forall|k: Seq<char>| #[trigger] self@.contains_key(k) ==> k.len() <= r@.len(),
    {
        let mut best = String::new();
        let mut best_len: usize = 0;
        let mut i: usize = 0;
        while i < self.records.len()
            invariant
                self.wf(),
                i <= self.records@.len(),
                best_len == best@.len(),
                forall|j: int| 0 <= j < i ==> #[trigger] self.records@[j].user_id@.len() <= best@.len(),
            decreases self.records@.len() - i,
        {
            let l = self.records[i].user_id.as_str().unicode_len();
            if l > best_len {
                best = self.records[i].user_id.clone();
                best_len = l;
            }
            i = i + 1;
        }
        assert forall|k: Seq<char>| #[trigger] self@.contains_key(k) implies k.len() <= best@.len() by {
            let j = choose|j: int| 0 <= j < self.records@.len() && self.records@[j].user_id@ == k;
            assert(self.records@[j].user_id@.len() <= best@.len());
        }
        best
    }

    fn count_room(&self, room: &str) -> (n: usize)
        requires
            self.wf(),
        ensures
            n == room_members(self@, room@).len(),
    {
        let ghost m = self@;
        let ghost mut seen: Set<Seq<char>> = Set::empty();
        let mut n: usize = 0;
        let mut i: usize = 0;
        while i < self.records.len()
            invariant
                self.wf(),
                m == self@,
                i <= self.records@.len(),
                n <= i,
                seen.finite(),
                n == seen.len(),
                forall|k: Seq<char>| seen.contains(k) <==> exists|j: int|
                    0 <= j < i && #[trigger] self.records@[j].user_id@ == k && self.records@[j]@.room == Some(room@),
            decreases self.records@.len() - i,
        {
            if room_is(&self.records[i].room, room) {
                proof {
                    let id = self.records@[i as int].user_id@;
                    if seen.contains(id) {
                        let j = choose|j: int| 0 <= j < i && #[trigger] self.records@[j].user_id@ == id && self.records@[j]@.room == Some(room@);
                        assert(self.records@[j].user_id@ != self.records@[i as int].user_id@);
                    }
                    seen = seen.insert(id);
                }
                n = n + 1;
            }
            i = i + 1;
        }
        proof {
            assert forall|k: Seq<char>| seen.contains(k) <==> room_members(m, room@).contains(k) by {
                if seen.contains(k) {
                    let j = choose|j: int| 0 <= j < i && #[trigger] self.records@[j].user_id@ == k && self.records@[j]@.room == Some(room@);
                    assert(m.contains_key(self.records@[j].user_id@));
                }
                if room_members(m, room@).contains(k) {
                    let j = choose|j: int| 0 <= j < self.records@.len() && self.records@[j].user_id@ == k;
                    assert(m.contains_key(self.records@[j].user_id@));
                }
            }
            assert(seen =~= room_members(m, room@));
        }
        n
    }

    fn snapshot(&self) -> (r: Vec<ConnectionInfo>)
        requires
            self.wf(),
        ensures
            r@.len() == self@.len(),
            forall|j: int| 0 <= j < r@.len() ==> #[trigger] r@[j]@ == self.records@[j]@,
    {
        let mut r: Vec<ConnectionInfo> = Vec::new();
        let mut i: usize = 0;
        while i < self.records.len()
            invariant
                self.wf(),
                i <= self.records@.len(),
                r@.len() == i,
                forall|j: int| 0 <= j < i ==> #[trigger] r@[j]@ == self.records@[j]@,
            decreases self.records@.len() - i,
        {
            r.push(self.records[i].duplicate());
            i = i + 1;
        }
        r
    }

    /// The rooms that some record belongs to, each once, in order of first appearance.
    fn room_names(&self) -> (r: Vec<String>)
        requires
            self.wf(),
        ensures
            distinct_names(r@),
            forall|name: Seq<char>| #[trigger] listed(r@, name) <==> occupied(self@, name),
    {
        let mut r: Vec<String> = Vec::new();
        let mut i: usize = 0;
        while i < self.records.len()
            invariant
                self.wf(),
                i <= self.records@.len(),
                distinct_names(r@),
                forall|name: Seq<char>| #[trigger] listed(r@, name) <==> seen_room(self.records@, i as int, name),
            decreases self.records@.len() - i,
        {
            let ghost ii = i as int;
            let ghost before = r@;
            match &self.records[i].room {
                Some(name) => {
                    let mut k: usize = 0;
                    let mut found = false;
                    while k < r.len()
                        invariant
                            k <= r@.len(),
                            found ==> listed(r@, name@),
                            !found ==> forall|q: int| 0 <= q < k ==> #[trigger] r@[q]@ != name@,
                        decreases r@.len() - k,
                    {
                        if str_eq(r[k].as_str(), name.as_str()) {
                            found = true;
                        }
                        k = k + 1;
                    }
                    if !found {
                        r.push(name.clone());
                        assert forall|x: Seq<char>| #[trigger] listed(r@, x) <==> (listed(before, x) || x == name@) by {
                            if listed(before, x) {
                                let q = choose|q: int| 0 <= q < before.len() && #[trigger] before[q]@ == x;
                                assert(r@[q]@ == x);
                            }
                            if x == name@ {
                                assert(r@[before.len() as int]@ == x);
                            }
                            if listed(r@, x) {
                                let q = choose|q: int| 0 <= q < r@.len() && #[trigger] r@[q]@ == x;
                                if q < before.len() {
                                    assert(before[q]@ == x);
                                }
                            }
                        }
                    }
                },
                None => {},
            }
            proof {
                assert forall|name: Seq<char>| #[trigger] seen_room(self.records@, ii + 1, name)
                    <==> (seen_room(self.records@, ii, name) || self.records@[ii]@.room == Some(name)) by {
                    if seen_room(self.records@, ii + 1, name) {
                        let j = choose|j: int| 0 <= j < ii + 1 && #[trigger] self.records@[j]@.room == Some(name);
                        if j < ii {
                            assert(self.records@[j]@.room == Some(name));
                        }
                    }
                    if self.records@[ii]@.room == Some(name) {
                        assert(self.records@[ii]@.room == Some(name));
                    }
                }
            }
            i = i + 1;
        }
        proof {
            assert forall|name: Seq<char>| #[trigger] occupied(self@, name) <==> seen_room(self.records@, self.records@.len() as int, name) by {
                if occupied(self@, name) {
                    let id = choose|id: Seq<char>| #[trigger] self@.contains_key(id) && self@[id].room == Some(name);
                    let j = choose|j: int| 0 <= j < self.records@.len() && self.records@[j].user_id@ == id;
                    assert(self.records@[j]@.room == Some(name));
                }
                if seen_room(self.records@, self.records@.len() as int, name) {
                    let j = choose|j: int| 0 <= j < self.records@.len() && #[trigger] self.records@[j]@.room == Some(name);
                    assert(self@.contains_key(self.records@[j].user_id@));
                }
            }
        }
        r
    }
}

/// Whether `name` is among `rooms`.
pub open spec fn listed(rooms: Seq<String>, name: Seq<char>) -> bool {
    exists|k: int| 0 <= k < rooms.len() && #[trigger] rooms[k]@ == name
}

spec fn seen_room(records: Seq<ConnectionInfo>, i: int, name: Seq<char>) -> bool {
    exists|j: int| 0 <= j < i && #[trigger] records[j]@.room == Some(name)
}

/// Whether `list` holds each record of `m` exactly once.
pub open spec fn lists_exactly(list: Seq<ConnectionInfo>, m: Map<Seq<char>, ConnectionRecord>) -> bool {
    &&& list.len() == m.len()
    &&& forall|j: int| 0 <= j < list.len() ==> #[trigger] m.contains_key(list[j].user_id@) && m[list[j].user_id@] == list[j]@
    &&& forall|a: int, b: int|
        0 <= a < list.len() && 0 <= b < list.len() && a != b ==> #[trigger] list[a].user_id@ != #[trigger] list[b].user_id@
}

/// A snapshot of the registry, as reported by the statistics endpoint.
pub struct ConnectionStats {
    /// The number of live connections.
    pub total_connections: usize,
    /// Each occupied room, once.
    pub rooms: Vec<String>,
    /// The number of connections in the room at the same position of `rooms`.
    pub room_counts: Vec<usize>,
    /// Every live connection.
    pub connections: Vec<ConnectionInfo>,
}

/// The set of live connections, keyed by identifier.
pub struct ConnectionRegistry {
    table: Table,
}

impl View for ConnectionRegistry {
    type V = Map<Seq<char>, ConnectionRecord>;

    closed spec fn view(&self) -> Map<Seq<char>, ConnectionRecord> {
        self.table@
    }
}

impl ConnectionRegistry {
    #[verifier::type_invariant]
    spec fn inv(&self) -> bool {
        self.table.wf()
    }

    /// An empty registry.
    pub fn new() -> (r: ConnectionRegistry)
        ensures
            r@ == Map::<Seq<char>, ConnectionRecord>::empty(),
            r@.dom().finite(),
    {
        ConnectionRegistry { table: Table::new() }
    }

    /// Leaves `self` empty and hands back what it held.
    fn take_table(&mut self) -> (t: Table)
        ensures
            t.wf(),
            t@ == old(self)@,
    {
        proof { use_type_invariant(&*self); }
        let mut held = ConnectionRegistry::new();
        std::mem::swap(self, &mut held);
        proof { use_type_invariant(&held); }
        held.table
    }

    /// The number of live connections.
    pub fn len(&self) -> (n: usize)
        ensures
            n == self@.len(),
            self@.dom().finite(),
    {
        proof { use_type_invariant(self); }
        self.table.len()
    }

    /// Whether a connection with identifier `id` is registered.
    pub fn contains(&self, id: &str) -> (r: bool)
        ensures
            r == self@.contains_key(id@),
    {
        proof { use_type_invariant(self); }
        self.table.contains(id)
    }

    /// An identifier that no live connection uses: `candidate` itself when it
    /// is free, and otherwise `candidate` followed by `-` and the longest
    /// identifier in use, which is longer than every identifier in use.
    pub fn fresh_id(&self, candidate: String) -> (r: String)
        ensures
            !self@.contains_key(r@),
            !self@.contains_key(candidate@) ==> r == candidate,
            candidate@.is_prefix_of(r@),
    {
        proof { use_type_invariant(self); }
        if !self.table.contains(candidate.as_str()) {
            return candidate;
        }
        let longest = self.table.longest_id();
        let mut r = candidate;
        let ghost start = r@;
        push_char(&mut r, '-');
        r.append(longest.as_str());
        assert(start.is_prefix_of(r@)) by {
            assert forall|i: int| 0 <= i < start.len() implies start[i] == r@[i] by {
                assert(r@ == start.push('-') + longest@);
            }
        }
        r
    }

    /// The number of live connections that belong to `room`.
    pub fn room_count(&self, room: &str) -> (n: usize)
        ensures
            n == room_members(self@, room@).len(),
    {
        proof { use_type_invariant(self); }
        self.table.count_room(room)
    }

    /// A copy of every record, each once, in no particular order.
    pub fn snapshot(&self) -> (r: Vec<ConnectionInfo>)
        ensures
            lists_exactly(r@, self@),
    {
        proof { use_type_invariant(self); }
        let r = self.table.snapshot();
        proof {
            assert forall|a: int, b: int| 0 <= a < r@.len() && 0 <= b < r@.len() && a != b
                implies #[trigger] r@[a].user_id@ != #[trigger] r@[b].user_id@ by {
                assert(r@[a]@ == self.table.records@[a]@);
                assert(r@[b]@ == self.table.records@[b]@);
            }
            assert forall|j: int| 0 <= j < r@.len() implies #[trigger] self@.contains_key(r@[j].user_id@)
                && self@[r@[j].user_id@] == r@[j]@ by {
                assert(r@[j]@ == self.table.records@[j]@);
            }
        }
        r
    }

    /// Counts of the live connections: in all, per occupied room, and each record.
    pub fn stats(&self) -> (r: ConnectionStats)
        ensures
            r.total_connections == self@.len(),
            r.rooms@.len() == r.room_counts@.len(),
            distinct_names(r.rooms@),
            forall|name: Seq<char>| #[trigger] listed(r.rooms@, name) <==> occupied(self@, name),
            forall|k: int| 0 <= k < r.rooms@.len() ==> #[trigger] r.room_counts@[k] == room_members(self@, r.rooms@[k]@).len(),
            lists_exactly(r.connections@, self@),
    {
        proof { use_type_invariant(self); }
        let rooms = self.table.room_names();
        let mut room_counts: Vec<usize> = Vec::new();
        let mut k: usize = 0;
        while k < rooms.len()
            invariant
                self.table.wf(),
                k <= rooms@.len(),
                room_counts@.len() == k,
                forall|q: int| 0 <= q < k ==> #[trigger] room_counts@[q] == room_members(self@, rooms@[q]@).len(),
            decreases rooms@.len() - k,
        {
            room_counts.push(self.table.count_room(rooms[k].as_str()));
            k = k + 1;
        }
        ConnectionStats {
            total_connections: self.table.len(),
            rooms,
            room_counts,
            connections: self.snapshot(),
        }
    }

    /// Records `info`, replacing any record with the same identifier.
    pub fn insert(&mut self, info: ConnectionInfo)
        ensures
            final(self)@ == old(self)@.insert(info.user_id@, info@),
            final(self)@.dom().finite(),
            final(self)@.len() == old(self)@.len() + if old(self)@.contains_key(info.user_id@) {
                0int
            } else {
                1int
            },
    {
        proof { use_type_invariant(&*self); }
        let mut table = self.take_table();
        table.insert(info);
        *self = ConnectionRegistry { table };
    }

    /// Removes the record with identifier `id`, if there is one; returns whether there was.
    pub fn remove(&mut self, id: &str) -> (r: bool)
        ensures
            final(self)@ == old(self)@.remove(id@),
            final(self)@.dom().finite(),
            final(self)@.len() == old(self)@.len() - if r {
                1int
            } else {
                0int
            },
            r == old(self)@.contains_key(id@),
    {
        proof { use_type_invariant(&*self); }
        let mut table = self.take_table();
        let r = table.remove(id);
        *self = ConnectionRegistry { table };
        r
    }
}

} // verus!

verus! {

/// One call on the registry, by connection identifier.
pub enum RegistryOp {
    Register(Seq<char>),
    Unregister(Seq<char>),
}

/// The identifiers that are live after `ops`, starting from an empty registry.
pub open spec fn live_after(ops: Seq<RegistryOp>) -> Set<Seq<char>>
    decreases ops.len(),
{
    if ops.len() == 0 {
        Set::empty()
    } else {
        let before = live_after(ops.drop_last());
        match ops.last() {
            RegistryOp::Register(id) => before.insert(id),
            RegistryOp::Unregister(id) => before.remove(id),
        }
    }
}

/// The identifiers that `ops` registers.
pub open spec fn registered_ids(ops: Seq<RegistryOp>) -> Set<Seq<char>>
    decreases ops.len(),
{
    if ops.len() == 0 {
        Set::empty()
    } else {
        let before = registered_ids(ops.drop_last());
        match ops.last() {
            RegistryOp::Register(id) => before.insert(id),
            RegistryOp::Unregister(_) => before,
        }
    }
}

/// The number of registrations in `ops`.
pub open spec fn registration_count(ops: Seq<RegistryOp>) -> nat
    decreases ops.len(),
{
    if ops.len() == 0 {
        0
    } else {
        registration_count(ops.drop_last()) + match ops.last() {
            RegistryOp::Register(_) => 1nat,
            RegistryOp::Unregister(_) => 0nat,
        }
    }
}

/// The distinct identifiers that `ops` unregisters after registering them.
pub open spec fn departed_ids(ops: Seq<RegistryOp>) -> Set<Seq<char>>
    decreases ops.len(),
{
    if ops.len() == 0 {
        Set::empty()
    } else {
        let before = departed_ids(ops.drop_last());
        match ops.last() {
            RegistryOp::Register(_) => before,
            RegistryOp::Unregister(id) => if registered_ids(ops.drop_last()).contains(id) {
                before.insert(id)
            } else {
                before
            },
        }
    }
}

/// Whether every registration in `ops` uses an identifier not registered before it.
pub open spec fn fresh_registrations(ops: Seq<RegistryOp>) -> bool
    decreases ops.len(),
{
    if ops.len() == 0 {
        true
    } else {
        &&& fresh_registrations(ops.drop_last())
        &&& match ops.last() {
            RegistryOp::Register(id) => !registered_ids(ops.drop_last()).contains(id),
            RegistryOp::Unregister(_) => true,
        }
    }
}

proof fn lemma_replay(ops: Seq<RegistryOp>)
    requires
        fresh_registrations(ops),
    ensures
        registered_ids(ops).finite(),
        departed_ids(ops).finite(),
        live_after(ops).finite(),
        departed_ids(ops).subset_of(registered_ids(ops)),
        live_after(ops) =~= registered_ids(ops).difference(departed_ids(ops)),
        registered_ids(ops).len() == registration_count(ops),
    decreases ops.len(),
{
    if ops.len() > 0 {
        lemma_replay(ops.drop_last());
    }
}

/// Whether `next` is what the registry holds after `op` on `prev`, as
/// `register` and `unregister` state it: a registration adds an identifier
/// that was not live.
pub open spec fn op_step(prev: Map<Seq<char>, ConnectionRecord>, op: RegistryOp, next: Map<Seq<char>, ConnectionRecord>) -> bool {
    match op {
        RegistryOp::Register(id) => !prev.contains_key(id) && next.dom() == prev.dom().insert(id),
        RegistryOp::Unregister(id) => next == prev.remove(id),
    }
}

/// The number of unregistrations in `ops` of an identifier that was live at the time.
pub open spec fn removal_count(ops: Seq<RegistryOp>) -> nat
    decreases ops.len(),
{
    if ops.len() == 0 {
        0
    } else {
        removal_count(ops.drop_last()) + match ops.last() {
            RegistryOp::Register(_) => 0nat,
            RegistryOp::Unregister(id) => if live_after(ops.drop_last()).contains(id) {
                1nat
            } else {
                0nat
            },
        }
    }
}

/// Whether every registration in `ops` adds an identifier that is not live.
pub open spec fn live_registrations(ops: Seq<RegistryOp>) -> bool
    decreases ops.len(),
{
    if ops.len() == 0 {
        true
    } else {
        &&& live_registrations(ops.drop_last())
        &&& match ops.last() {
            RegistryOp::Register(id) => !live_after(ops.drop_last()).contains(id),
            RegistryOp::Unregister(_) => true,
        }
    }
}

proof fn lemma_live_count(ops: Seq<RegistryOp>)
    requires
        live_registrations(ops),
    ensures
        live_after(ops).finite(),
        live_after(ops).len() == registration_count(ops) - removal_count(ops),
        removal_count(ops) <= registration_count(ops),
    decreases ops.len(),
{
    if ops.len() > 0 {
        lemma_live_count(ops.drop_last());
    }
}

proof fn lemma_states_follow_replay(ops: Seq<RegistryOp>, states: Seq<Map<Seq<char>, ConnectionRecord>>, k: int)
    requires
        states.len() == ops.len() + 1,
        states[0] == Map::<Seq<char>, ConnectionRecord>::empty(),
        forall|j: int| 0 <= j < ops.len() ==> #[trigger] op_step(states[j], ops[j], states[j + 1]),
        0 <= k <= ops.len(),
    ensures
        states[k].dom() == live_after(ops.take(k)),
        live_registrations(ops.take(k)),
    decreases k,
{
    if k == 0 {
        assert(states[0].dom() =~= Set::<Seq<char>>::empty());
    } else {
        lemma_states_follow_replay(ops, states, k - 1);
        assert(ops.take(k).drop_last() =~= ops.take(k - 1));
        let j = k - 1;
        assert(op_step(states[j], ops[j], states[j + 1]));
        let prev = states[k - 1];
        let next = states[k];
        match ops[k - 1] {
            RegistryOp::Register(_) => {},
            RegistryOp::Unregister(id) => {
                assert(next.dom() =~= prev.dom().remove(id));
            },
        }
    }
}

/// Registry count: starting from an empty registry, after any sequence of
/// `register` and `unregister` calls, the number of live connections is the
/// number of registrations minus the number of unregistrations of an
/// identifier that was live at the time. `states` are the registry's
/// contents before the first call and after each call.
pub proof fn lemma_count_after(ops: Seq<RegistryOp>, states: Seq<Map<Seq<char>, ConnectionRecord>>)
    requires
        states.len() == ops.len() + 1,
        states[0] == Map::<Seq<char>, ConnectionRecord>::empty(),
        forall|j: int| 0 <= j < ops.len() ==> #[trigger] op_step(states[j], ops[j], states[j + 1]),
    ensures
        states.last().dom().finite(),
        states.last().len() == registration_count(ops) - removal_count(ops),
{
    lemma_states_follow_replay(ops, states, ops.len() as int);
    assert(ops.take(ops.len() as int) =~= ops);
    lemma_live_count(ops);
}

proof fn lemma_removals_are_departures(ops: Seq<RegistryOp>)
    requires
        fresh_registrations(ops),
    ensures
        removal_count(ops) == departed_ids(ops).len(),
    decreases ops.len(),
{
    if ops.len() > 0 {
        let prefix = ops.drop_last();
        lemma_removals_are_departures(prefix);
        lemma_replay(prefix);
        match ops.last() {
            RegistryOp::Register(_) => {},
            RegistryOp::Unregister(id) => {
                let dep = departed_ids(prefix);
                if registered_ids(prefix).contains(id) && dep.contains(id) {
                    assert(dep.insert(id) =~= dep);
                }
            },
        }
    }
}

/// Registry count with identifiers that are never reused: the number of live
/// connections is the number of registrations minus the number of distinct
/// registered identifiers that were unregistered.
pub proof fn lemma_count_with_unique_ids(ops: Seq<RegistryOp>, states: Seq<Map<Seq<char>, ConnectionRecord>>)
    requires
        fresh_registrations(ops),
        states.len() == ops.len() + 1,
        states[0] == Map::<Seq<char>, ConnectionRecord>::empty(),
        forall|j: int| 0 <= j < ops.len() ==> #[trigger] op_step(states[j], ops[j], states[j + 1]),
    ensures
        states.last().len() == registration_count(ops) - departed_ids(ops).len(),
{
    lemma_count_after(ops, states);
    lemma_removals_are_departures(ops);
}

/// Unregistering is idempotent: removing a connection a second time leaves the
/// registry, and so its count, as the first removal left it.
pub proof fn lemma_unregister_idempotent(m: Map<Seq<char>, ConnectionRecord>, id: Seq<char>)
    ensures
        m.remove(id).remove(id) == m.remove(id),
        m.remove(id).remove(id).len() == m.remove(id).len(),
{
    assert(m.remove(id).remove(id) =~= m.remove(id));
}

} // verus!
