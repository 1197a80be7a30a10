use vstd::prelude::*;
use dashmap::DashMap;
use crate::conn::{ConnId, ConnHandle};
use crate::shared_map::{
    member_entries, members_insert, members_new, members_remove, members_snapshot, room_entries,
    rooms_insert, rooms_new, rooms_remove,
};

verus! {

/// The members of a room, by connection identity.
pub type Members = Map<ConnId, ConnHandle>;

/// Every room, by room id, with its members.
pub type RoomTable = Map<u128, Map<ConnId, ConnHandle>>;

/// The members of `room`; a room that does not exist has none.
pub open spec fn members_of(t: RoomTable, room: u128) -> Members {
    if t.contains_key(room) {
        t[room]
    } else {
        Map::empty()
    }
}

/// The table after `id` joined `room` with handle `h`: the room exists and
/// holds `id`; nothing else changes.
pub open spec fn joined(t: RoomTable, room: u128, id: ConnId, h: ConnHandle) -> RoomTable {
    t.insert(room, members_of(t, room).insert(id, h))
}

/// The table after `id` left `room`: the room exists (it is created empty
/// when it did not) and no longer holds `id`; nothing else changes.
pub open spec fn left(t: RoomTable, room: u128, id: ConnId) -> RoomTable {
    t.insert(room, members_of(t, room).remove(id))
}

/// Who receives what `sender` sends to a room with these members: everyone
/// else in the room.
pub open spec fn fanout(members: Members, sender: ConnId) -> Members {
    members.remove(sender)
}

/// `v` lists the entries of `m`, each exactly once.
pub open spec fn lists_exactly(v: Seq<(ConnId, ConnHandle)>, m: Members) -> bool {
    &&& forall|i: int| 0 <= i < v.len() ==> {
        &&& m.contains_key(#[trigger] v[i].0)
        &&& m[v[i].0] == v[i].1
    }
    &&& forall|k: ConnId| m.contains_key(k) ==> exists|i: int| 0 <= i < v.len() && (#[trigger] v[i]).0 == k
    &&& forall|i: int, j: int| 0 <= i < j < v.len() ==> v[i].0 != v[j].0
}

/// How one delivery attempt to a member went.
#[derive(Clone, Copy, Debug, PartialEq, Eq, Structural)]
pub enum Delivery {
    /// The packet was handed to the member's connection.
    Sent,
    /// The member's QUIC connection refused a new stream.
    QuicStreamRefused,
    /// The member's WebSocket queue is full.
    WsQueueFull,
    /// The member's WebSocket queue is closed.
    WsQueueClosed,
}

/// What the host does after a delivery attempt.
#[derive(Clone, Copy, Debug, PartialEq, Eq, Structural)]
pub enum Followup {
    /// Nothing more.
    Nothing,
    /// Wait until the member's queue takes the packet.
    AwaitSend,
    /// The given connection was taken out of the room.
    Removed(ConnId),
}

/// The connection that a delivery outcome takes out of the room, if any:
/// the member whose QUIC connection refused a stream, or the sender when
/// the member's WebSocket queue was found closed.
pub open spec fn dropped_by(outcome: Delivery, sender: ConnId, member: ConnId) -> Option<ConnId> {
    match outcome {
        Delivery::QuicStreamRefused => Some(member),
        Delivery::WsQueueClosed => Some(sender),
        _ => None,
    }
}

/// The followup for a delivery outcome.
pub open spec fn followup_for(outcome: Delivery, sender: ConnId, member: ConnId) -> Followup {
    match outcome {
        Delivery::Sent => Followup::Nothing,
        Delivery::WsQueueFull => Followup::AwaitSend,
        Delivery::QuicStreamRefused => Followup::Removed(member),
        Delivery::WsQueueClosed => Followup::Removed(sender),
    }
}

/// Members after a delivery outcome.
pub open spec fn settled(members: Members, outcome: Delivery, sender: ConnId, member: ConnId) -> Members {
    match dropped_by(outcome, sender, member) {
        Some(id) => members.remove(id),
        None => members,
    }
}

/// The members of one room.
pub struct Room {
    pub memebers: DashMap<ConnId, ConnHandle>,
}

impl View for Room {
    type V = Members;

    open spec fn view(&self) -> Members {
        member_entries(self.memebers)
    }
}

impl Room {
    /// An empty room.
    pub fn new() -> (r: Room)
        ensures
            r@ == Map::<ConnId, ConnHandle>::empty(),
    {
        Room { memebers: members_new() }
    }

    /// Plans a fan-out: the members that a packet from `conn_id` goes to,
    /// each with its handle, each once. The sender is never among them.
    pub fn send(&self, conn_id: ConnId) -> (targets: Vec<(ConnId, ConnHandle)>)
        ensures
            lists_exactly(targets@, fanout(self@, conn_id)),
    {
        let snapshot = members_snapshot(&self.memebers);
        let ghost members = self@;
        let mut targets: Vec<(ConnId, ConnHandle)> = Vec::new();
        let mut i: usize = 0;
        while i < snapshot.len()
            invariant
                members == self@,
                0 <= i <= snapshot@.len(),
                forall|a: int| 0 <= a < snapshot@.len() ==> {
                    &&& members.contains_key(#[trigger] snapshot@[a].0)
                    &&& members[snapshot@[a].0] == snapshot@[a].1
                },
                forall|a: int, b: int| 0 <= a < b < snapshot@.len() ==> snapshot@[a].0 != snapshot@[b].0,
                forall|a: int| 0 <= a < targets@.len() ==> {
                    &&& fanout(members, conn_id).contains_key(#[trigger] targets@[a].0)
                    &&& fanout(members, conn_id)[targets@[a].0] == targets@[a].1
                },
                forall|a: int| #![trigger targets@[a]] 0 <= a < targets@.len() ==>
                    exists|b: int| 0 <= b < i && #[trigger] snapshot@[b] == targets@[a],
                forall|b: int| 0 <= b < i && (#[trigger] snapshot@[b]).0 != conn_id ==>
                    exists|a: int| 0 <= a < targets@.len() && targets@[a] == snapshot@[b],
                forall|a: int, b: int| 0 <= a < b < targets@.len() ==> targets@[a].0 != targets@[b].0,
            decreases snapshot@.len() - i,
        {
            let entry = snapshot[i];
            let ghost before = targets@;
            if entry.0 != conn_id {
                assert forall|a: int| 0 <= a < before.len() implies before[a].0 != entry.0 by {
                    let b = choose|b: int| 0 <= b < i && #[trigger] snapshot@[b] == before[a];
                    assert(snapshot@[b].0 != snapshot@[i as int].0);
                }
                targets.push(entry);
                assert(snapshot@[i as int] == targets@[targets@.len() - 1]);
            }
            assert forall|b: int| 0 <= b < i + 1 && (#[trigger] snapshot@[b]).0 != conn_id implies
                exists|a: int| 0 <= a < targets@.len() && targets@[a] == snapshot@[b] by {
                if b < i {
                    let a = choose|a: int| 0 <= a < before.len() && before[a] == snapshot@[b];
                    assert(targets@[a] == before[a]);
                } else {
                    assert(targets@[targets@.len() - 1] == snapshot@[b]);
                }
            }
            i = i + 1;
        }
        proof {
            assert forall|k: ConnId| fanout(members, conn_id).contains_key(k) implies
                exists|a: int| 0 <= a < targets@.len() && (#[trigger] targets@[a]).0 == k by {
                let b = choose|b: int| 0 <= b < snapshot@.len() && (#[trigger] snapshot@[b]).0 == k;
                let a = choose|a: int| 0 <= a < targets@.len() && targets@[a] == snapshot@[b];
                assert(targets@[a].0 == k);
            }
        }
        targets
    }

    /// Records how a delivery from `sender` to `member` went, and says what
    /// the host does next. A member whose QUIC connection refused a stream is
    /// taken out of the room; when a member's WebSocket queue is closed, the
    /// sender is taken out; a full queue is waited on.
    pub fn settle(&mut self, sender: ConnId, member: ConnId, outcome: Delivery) -> (next: Followup)
        ensures
            final(self)@ == settled(old(self)@, outcome, sender, member),
            next == followup_for(outcome, sender, member),
            outcome == Delivery::Sent ==> final(self)@ == old(self)@ && next == Followup::Nothing,
            outcome == Delivery::WsQueueFull ==> final(self)@ == old(self)@ && next == Followup::AwaitSend,
            outcome == Delivery::QuicStreamRefused ==> final(self)@ == old(self)@.remove(member)
                && next == Followup::Removed(member),
            outcome == Delivery::WsQueueClosed ==> final(self)@ == old(self)@.remove(sender)
                && next == Followup::Removed(sender),
    {
        match outcome {
            Delivery::Sent => Followup::Nothing,
            Delivery::WsQueueFull => Followup::AwaitSend,
            Delivery::QuicStreamRefused => {
                members_remove(&mut self.memebers, &member);
                Followup::Removed(member)
            },
            Delivery::WsQueueClosed => {
                members_remove(&mut self.memebers, &sender);
                Followup::Removed(sender)
            },
        }
    }
}

impl Default for Room {
    /// An empty room.
    fn default() -> (r: Room)
        ensures
            r@ == Map::<ConnId, ConnHandle>::empty(),
    {
        Room::new()
    }
}

/// Every room of the centre.
pub struct Rooms {
    pub inner: DashMap<u128, Room>,
}

impl View for Rooms {
    type V = RoomTable;

    open spec fn view(&self) -> RoomTable {
        room_entries(self.inner).map_values(|r: Room| r@)
    }
}

impl Rooms {
    /// No rooms.
    pub fn new() -> (r: Rooms)
        ensures
            r@ == RoomTable::empty(),
    {
        let r = Rooms { inner: rooms_new() };
        assert(r@ =~= RoomTable::empty());
        r
    }

}

impl Default for Rooms {
    /// No rooms.
    fn default() -> (r: Rooms)
        ensures
            r@ == RoomTable::empty(),
    {
        Rooms::new()
    }
}

impl Rooms {
    /// Takes the room out of the table; the table's view is as if the room
    /// had been removed.
    fn take(&mut self, room: u128) -> (taken: Option<Room>)
        ensures
            room_entries(final(self).inner) == room_entries(old(self).inner).remove(room),
            taken is Some <==> old(self)@.contains_key(room),
            taken matches Some(r) ==> r@ == old(self)@[room],
            taken matches Some(r) ==> r == room_entries(old(self).inner)[room],
    {
        match rooms_remove(&mut self.inner, &room) {
            Some((_, r)) => Some(r),
            None => None,
        }
    }

    /// Puts a room in the table under `room`.
    fn put(&mut self, room: u128, r: Room)
        ensures
            room_entries(final(self).inner) == room_entries(old(self).inner).insert(room, r),
            final(self)@ == old(self)@.insert(room, r@),
    {
        rooms_insert(&mut self.inner, room, r);
        assert(self@ =~= old(self)@.insert(room, r@));
    }

    /// Adds `conn_id` with handle `conn` to `room`, creating the room when it
    /// does not exist yet.
    pub fn join(&mut self, room: u128, conn: ConnHandle, conn_id: ConnId)
        ensures
            final(self)@ == joined(old(self)@, room, conn_id, conn),
    {
        let ghost t = self@;
        let mut r = match self.take(room) {
            Some(r) => r,
            None => Room::new(),
        };
        assert(r@ == members_of(t, room));
        members_insert(&mut r.memebers, conn_id, conn);
        let ghost mid = self@;
        assert(mid =~= t.remove(room));
        self.put(room, r);
        assert(self@ =~= joined(t, room, conn_id, conn));
    }

    /// Takes `conn_id` out of `room`. The room is created empty when it does
    /// not exist yet.
    pub fn leave(&mut self, room: u128, conn_id: ConnId)
        ensures
            final(self)@ == left(old(self)@, room, conn_id),
    {
        let ghost t = self@;
        let mut r = match self.take(room) {
            Some(r) => r,
            None => Room::new(),
        };
        assert(r@ == members_of(t, room));
        members_remove(&mut r.memebers, &conn_id);
        let ghost mid = self@;
        assert(mid =~= t.remove(room));
        self.put(room, r);
        assert(self@ =~= left(t, room, conn_id));
    }

    /// Plans a fan-out of a packet that `conn_id` sends to `room`: `None`
    /// when the room does not exist, else every other member of the room
    /// with its handle, each once. The rooms are left as they were.
    pub fn send(&mut self, room: u128, conn_id: ConnId) -> (targets: Option<Vec<(ConnId, ConnHandle)>>)
        ensures
            final(self)@ == old(self)@,
            targets is Some <==> old(self)@.contains_key(room),
            targets matches Some(v) ==> lists_exactly(v@, fanout(old(self)@[room], conn_id)),
    {
        let ghost e = room_entries(self.inner);
        match self.take(room) {
            Some(r) => {
                let targets = r.send(conn_id);
                rooms_insert(&mut self.inner, room, r);
                assert(room_entries(self.inner) =~= e);
                Some(targets)
            },
            None => None,
        }
    }

    /// Records how a delivery in `room` from `sender` to `member` went (see
    /// `Room::settle`). Nothing changes when the room does not exist.
    pub fn settle(&mut self, room: u128, sender: ConnId, member: ConnId, outcome: Delivery) -> (next: Followup)
        ensures
            final(self)@ == (if old(self)@.contains_key(room) {
                old(self)@.insert(room, settled(old(self)@[room], outcome, sender, member))
            } else {
                old(self)@
            }),
            next == followup_for(outcome, sender, member),
            outcome == Delivery::Sent ==> final(self)@ == old(self)@ && next == Followup::Nothing,
            outcome == Delivery::WsQueueFull ==> final(self)@ == old(self)@ && next == Followup::AwaitSend,
            outcome == Delivery::QuicStreamRefused ==> next == Followup::Removed(member) && final(self)@ == (
                if old(self)@.contains_key(room) {
                    old(self)@.insert(room, old(self)@[room].remove(member))
                } else {
                    old(self)@
                }),
            outcome == Delivery::WsQueueClosed ==> next == Followup::Removed(sender) && final(self)@ == (
                if old(self)@.contains_key(room) {
                    old(self)@.insert(room, old(self)@[room].remove(sender))
                } else {
                    old(self)@
                }),
    {
        let ghost t = self@;
        match self.take(room) {
            Some(mut r) => {
                let next = r.settle(sender, member, outcome);
                let ghost mid = self@;
                assert(mid =~= t.remove(room));
                self.put(room, r);
                assert(self@ =~= t.insert(room, settled(t[room], outcome, sender, member)));
                next
            },
            None => {
                assert(self@ =~= t);
                match outcome {
                    Delivery::Sent => Followup::Nothing,
                    Delivery::WsQueueFull => Followup::AwaitSend,
                    Delivery::QuicStreamRefused => Followup::Removed(member),
                    Delivery::WsQueueClosed => Followup::Removed(sender),
                }
            },
        }
    }
}

} // verus!
